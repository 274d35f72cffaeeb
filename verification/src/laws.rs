//! Laws of the gateway, stated and proved over the transition functions.
//!
//! Each law speaks of every state or of several operations in sequence; the
//! per-call guarantees themselves are the `ensures` of the methods in
//! `engine`.

use vstd::prelude::*;
use crate::engine::RecvNote;
use crate::engine::SendOutcome;
use crate::engine::StateV;
use crate::engine::idle_step_plan;
use crate::engine::idle_step_state;
use crate::engine::recv_step;
use crate::engine::send_screened_step;
use crate::engine::send_step;
use crate::options::OptView;
use crate::options::UciOption;
use crate::options::UciOptionName;
use crate::options::accepts;
use crate::options::spec_safe;
use crate::proto::EngineError;
use crate::proto::RecvInput;
use crate::proto::UciIn;
use crate::proto::UciOut;

verus! {

/// Idleness is exactly: no outstanding handshake acknowledgment, no
/// outstanding readiness acknowledgment, and no running search.
pub proof fn lemma_idle_characterization(s: StateV)
    ensures
        s.idle() <==> (s.pending_uciok == 0 && s.pending_readyok == 0 && !s.searching),
{
}

/// A search-start command while busy is refused as resource-busy and leaves
/// the state unchanged, so it is never transmitted; the screened path
/// decides the same way.
pub proof fn lemma_busy_refuses_search(s: StateV, c: UciIn)
    requires
        !s.failed,
        s.searching,
        c matches UciIn::Go { .. },
    ensures
        send_step(s, c) == (s, SendOutcome::Refused(EngineError::ResourceBusy)),
        send_screened_step(s, c) == (s, SendOutcome::Refused(EngineError::ResourceBusy)),
{
}

/// An interrupt, a ponder-continue, or a readiness probe is transmitted
/// even while busy, on both send paths.
pub proof fn lemma_exempt_pass_while_busy(s: StateV, c: UciIn)
    requires
        !s.failed,
        s.searching,
        c == UciIn::Stop || c == UciIn::Ponderhit || c == UciIn::Isready,
    ensures
        send_step(s, c).1 == SendOutcome::Sent,
        send_screened_step(s, c).1 == SendOutcome::Sent,
{
}

/// A configuration set naming an unsafe option is absorbed by the screened
/// path in every state, whatever its value, so it is never transmitted and
/// never surfaces an error.
pub proof fn lemma_unsafe_option_screened(s: StateV, c: UciIn)
    requires
        c matches UciIn::Setoption { name, .. } && !spec_safe(name@),
    ensures
        send_screened_step(s, c) == (s, SendOutcome::Dropped),
{
}

/// The safety screen changes nothing but the fate of unsafe configuration
/// sets: for every other command the screened and the unscreened path
/// decide alike.
pub proof fn lemma_screen_only_affects_unsafe(s: StateV, c: UciIn)
    requires
        !(c matches UciIn::Setoption { name, .. } && !spec_safe(name@)),
    ensures
        send_screened_step(s, c) == send_step(s, c),
{
}

/// A configuration set naming an unknown option is absorbed, never
/// transmitted and never an error, whatever its value.
pub proof fn lemma_unknown_option_dropped(s: StateV, c: UciIn)
    requires
        !s.failed,
        !s.searching,
        c matches UciIn::Setoption { name, .. } && !s.options.contains_key(name@),
    ensures
        send_step(s, c) == (s, SendOutcome::Dropped),
{
}

/// A configuration set whose value fails the declared shape is refused as
/// an invalid option value and is never transmitted.
pub proof fn lemma_invalid_value_refused(s: StateV, c: UciIn)
    requires
        !s.failed,
        !s.searching,
        c matches UciIn::Setoption { name, value } && s.options.contains_key(name@) && !accepts(
            s.options[name@],
            value.deep_view(),
        ),
    ensures
        send_step(s, c) == (s, SendOutcome::Refused(EngineError::InvalidOptionValue)),
{
}

/// Processing a thread-count advertisement whose declared maximum exceeds
/// the configured limit stores exactly the configured limit — never more.
pub proof fn lemma_thread_limit_clamped(s: StateV, name: UciOptionName, option: UciOption)
    requires
        !s.failed,
        name@ == "Threads"@,
        option@ matches OptView::Integer { max, .. } && max > s.max_threads as int,
    ensures
        ({
            let s2 = recv_step(s, RecvInput::Event(UciOut::OptionDecl { name, option })).0;
            &&& s2.options.contains_key("Threads"@)
            &&& s2.options["Threads"@] matches OptView::Integer { max, .. } && max
                == s.max_threads as int
        }),
{
}

/// While busy with no readiness probe outstanding, the ensure-idle step
/// synthesizes exactly one interrupt followed by exactly one readiness
/// probe; afterwards a probe is outstanding, and no step with a probe
/// outstanding synthesizes another command.
pub proof fn lemma_stall_breaker(s: StateV)
    requires
        s.searching,
        s.pending_readyok == 0,
    ensures
        idle_step_plan(s) == Some(seq![UciIn::Stop, UciIn::Isready]),
        idle_step_state(s).pending_readyok == 1,
        forall|s2: StateV|
            s2.pending_readyok >= 1 ==> #[trigger] idle_step_plan(s2) is None || idle_step_plan(s2)
                == Some(Seq::<UciIn>::empty()),
{
}

/// From an idle state, the clean-boundary sequence transmits the new-game
/// reset and the readiness probe, and the state is idle again as soon as
/// the engine acknowledges the probe.
pub proof fn lemma_newgame_ends_idle(s: StateV)
    requires
        !s.failed,
        s.idle(),
    ensures
        ({
            let (s1, o1) = send_step(s, UciIn::Ucinewgame);
            let (s2, o2) = send_step(s1, UciIn::Isready);
            &&& o1 == SendOutcome::Sent
            &&& o2 == SendOutcome::Sent
            &&& recv_step(s2, RecvInput::Event(UciOut::Readyok)).0.idle()
        }),
{
}

/// A zero-length read is fatal: it reports a transport error, and every
/// later receive or unscreened send fails the same way without changing
/// the state.
pub proof fn lemma_eof_fatal_and_sticky(s: StateV, inp: RecvInput, c: UciIn)
    requires
        !s.failed,
    ensures
        ({
            let (s1, note) = recv_step(s, RecvInput::Closed);
            &&& s1.failed
            &&& note == RecvNote::Fatal(EngineError::TransportError)
            &&& recv_step(s1, inp) == (s1, RecvNote::Fatal(EngineError::TransportError))
            &&& send_step(s1, c) == (s1, SendOutcome::Refused(EngineError::TransportError))
        }),
{
}

/// A value accepted against the stored shape of an advertised option is
/// still accepted after the engine re-advertises the same declaration: the
/// clamp is reapplied from the declared value, so the stored shape — and
/// with it the verdict on the value — does not change.
pub proof fn lemma_value_roundtrip(s: StateV, name: UciOptionName, option: UciOption, value: Option<
    String,
>)
    requires
        !s.failed,
        ({
            let s1 = recv_step(s, RecvInput::Event(UciOut::OptionDecl { name, option })).0;
            accepts(s1.options[name@], value.deep_view())
        }),
    ensures
        ({
            let s1 = recv_step(s, RecvInput::Event(UciOut::OptionDecl { name, option })).0;
            let s2 = recv_step(s1, RecvInput::Event(UciOut::OptionDecl { name, option })).0;
            &&& s2.options.contains_key(name@)
            &&& s2.options[name@] == s1.options[name@]
            &&& accepts(s2.options[name@], value.deep_view())
        }),
{
}

} // verus!
