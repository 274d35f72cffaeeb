//! The gateway state machine: admission control for outbound commands,
//! event application for inbound events, and the decision logic of the
//! handshake orchestration.
//!
//! The gateway owns no streams.  Sending returns the command to transmit (or
//! reports it absorbed or refused), and receiving takes one already-decoded
//! read outcome; a thin unverified shell performs the actual reads, writes
//! and flushes, strictly in call order.

use vstd::prelude::*;
use crate::options::OptView;
use crate::options::OptionRegistry;
use crate::options::accepts;
use crate::options::clamp_max;
use crate::options::spec_safe;
use crate::proto::EngineError;
use crate::proto::RecvInput;
use crate::proto::Session;
use crate::proto::UciIn;
use crate::proto::UciOut;
use crate::text::str_eq;

verus! {

/// Operator-configured ceilings for well-known resource knobs.
pub struct EngineParameters {
    pub max_threads: u32,
    pub max_hash: u32,
}

/// Mathematical state of the gateway.
pub ghost struct StateV {
    /// Outstanding handshake acknowledgments.
    pub pending_uciok: u64,
    /// Outstanding readiness acknowledgments.
    pub pending_readyok: u64,
    /// A search is running.
    pub searching: bool,
    /// Identity text announced by the engine, if any.
    pub cached_name: Option<Seq<char>>,
    /// Advertised options, as last acknowledged by the engine.
    pub options: Map<Seq<char>, OptView>,
    /// Configured ceiling for the thread-count knob.
    pub max_threads: u32,
    /// Configured ceiling for the memory-size knob.
    pub max_hash: u32,
    /// A fatal transport or decode error happened; the instance is unusable.
    pub failed: bool,
}

impl StateV {
    /// The engine is safely idle: nothing pending and no search running.
    pub open spec fn idle(self) -> bool {
        self.pending_uciok == 0 && self.pending_readyok == 0 && !self.searching
    }
}

/// Increment that sticks at the largest counter value.
pub open spec fn inc64(n: u64) -> u64 {
    if n == u64::MAX {
        n
    } else {
        (n + 1) as u64
    }
}

/// Decrement floored at zero, tolerating surplus acknowledgments.
pub open spec fn dec64(n: u64) -> u64 {
    if n == 0 {
        0
    } else {
        (n - 1) as u64
    }
}

/// What the unscreened send path decides for one command.
pub ghost enum SendOutcome {
    /// The command is transmitted.
    Sent,
    /// The command is silently absorbed; nothing is transmitted.
    Dropped,
    /// The command is refused with a typed error; nothing is transmitted.
    Refused(EngineError),
}

/// Transition of the unscreened send path.
pub open spec fn send_step(s: StateV, c: UciIn) -> (StateV, SendOutcome) {
    if s.failed {
        (s, SendOutcome::Refused(EngineError::TransportError))
    } else {
        match c {
            UciIn::Isready => (
                (StateV { pending_readyok: inc64(s.pending_readyok), ..s }),
                SendOutcome::Sent,
            ),
            UciIn::Stop => (s, SendOutcome::Sent),
            UciIn::Ponderhit => (s, SendOutcome::Sent),
            _ => {
                if s.searching {
                    (s, SendOutcome::Refused(EngineError::ResourceBusy))
                } else {
                    match c {
                        UciIn::Uci => (
                            (StateV {
                                pending_uciok: inc64(s.pending_uciok),
                                options: Map::empty(),
                                cached_name: None,
                                ..s
                            }),
                            SendOutcome::Sent,
                        ),
                        UciIn::Go { .. } => ((StateV { searching: true, ..s }), SendOutcome::Sent),
                        UciIn::Setoption { name, value } => {
                            if !s.options.contains_key(name@) {
                                (s, SendOutcome::Dropped)
                            } else if accepts(s.options[name@], value.deep_view()) {
                                (s, SendOutcome::Sent)
                            } else {
                                (s, SendOutcome::Refused(EngineError::InvalidOptionValue))
                            }
                        },
                        _ => (s, SendOutcome::Sent),
                    }
                }
            },
        }
    }
}

/// The command is a configuration set naming an unsafe option.
pub open spec fn unsafe_setoption(c: UciIn) -> bool {
    match c {
        UciIn::Setoption { name, .. } => !spec_safe(name@),
        _ => false,
    }
}

/// Transition of the screened send path: unsafe configuration sets are
/// absorbed before any other screen runs.
pub open spec fn send_screened_step(s: StateV, c: UciIn) -> (StateV, SendOutcome) {
    if unsafe_setoption(c) {
        (s, SendOutcome::Dropped)
    } else {
        send_step(s, c)
    }
}

/// What the receive path decides for one read outcome.
pub ghost enum RecvNote {
    /// Fatal: the instance becomes (or already was) unusable.
    Fatal(EngineError),
    /// Recognized noise; read again.
    Skipped,
    /// A reportable event; it is returned to the caller.
    Reported,
}

/// The event is a progress report with no interesting field populated.
pub open spec fn noise(e: UciOut) -> bool {
    e matches UciOut::Info { pv: None, score: None, string: None, .. }
}

/// The advertised shape with its maximum clamped down for well-known
/// resource knobs, and unchanged otherwise.
pub open spec fn clamp_for(s: StateV, name: Seq<char>, o: OptView) -> OptView {
    if name == "Threads"@ {
        clamp_max(o, s.max_threads as int)
    } else if name == "Hash"@ {
        clamp_max(o, s.max_hash as int)
    } else {
        o
    }
}

/// Transition of the receive path for one read outcome.
pub open spec fn recv_step(s: StateV, inp: RecvInput) -> (StateV, RecvNote) {
    if s.failed {
        (s, RecvNote::Fatal(EngineError::TransportError))
    } else {
        match inp {
            RecvInput::Closed => (
                (StateV { failed: true, ..s }),
                RecvNote::Fatal(EngineError::TransportError),
            ),
            RecvInput::Malformed => (
                (StateV { failed: true, ..s }),
                RecvNote::Fatal(EngineError::ProtocolDecodeError),
            ),
            RecvInput::Event(e) => {
                if noise(e) {
                    (s, RecvNote::Skipped)
                } else {
                    match e {
                        UciOut::IdName(n) => (
                            (StateV { cached_name: Some(n@), ..s }),
                            RecvNote::Reported,
                        ),
                        UciOut::Uciok => (
                            (StateV { pending_uciok: dec64(s.pending_uciok), ..s }),
                            RecvNote::Reported,
                        ),
                        UciOut::Readyok => (
                            (StateV { pending_readyok: dec64(s.pending_readyok), ..s }),
                            RecvNote::Reported,
                        ),
                        UciOut::Bestmove { .. } => (
                            (StateV { searching: false, ..s }),
                            RecvNote::Reported,
                        ),
                        UciOut::OptionDecl { name, option } => (
                            (StateV {
                                options: s.options.insert(name@, clamp_for(s, name@, option@)),
                                ..s
                            }),
                            RecvNote::Reported,
                        ),
                        _ => (s, RecvNote::Reported),
                    }
                }
            },
        }
    }
}

/// One step of the ensure-idle orchestration: the commands to write before
/// waiting for the next event, or nothing when already idle.
pub open spec fn idle_step_plan(s: StateV) -> Option<Seq<UciIn>> {
    if s.idle() {
        None
    } else if s.searching && s.pending_readyok < 1 {
        Some(seq![UciIn::Stop, UciIn::Isready])
    } else {
        Some(Seq::<UciIn>::empty())
    }
}

/// State after one ensure-idle step issued its commands.
pub open spec fn idle_step_state(s: StateV) -> StateV {
    if !s.idle() && s.searching && s.pending_readyok < 1 {
        StateV { pending_readyok: 1, ..s }
    } else {
        s
    }
}

/// The declared maximum recorded under `key`, or `dflt` when `key` was
/// never advertised or is not numeric.
pub open spec fn advertised_max(m: Map<Seq<char>, OptView>, key: Seq<char>, dflt: int) -> int {
    if m.contains_key(key) {
        match m[key] {
            OptView::Integer { max, .. } => max,
            _ => dflt,
        }
    } else {
        dflt
    }
}

/// The value list recorded under the well-known enumerated mode option, or
/// an empty list.
pub open spec fn advertised_variants(m: Map<Seq<char>, OptView>) -> Seq<Seq<char>> {
    if m.contains_key("UCI_Variant"@) {
        match m["UCI_Variant"@] {
            OptView::Enumerated { allowed, .. } => allowed,
            _ => Seq::<Seq<char>>::empty(),
        }
    } else {
        Seq::<Seq<char>>::empty()
    }
}

/// The gateway core: busy/idle state machine, option registry, limits.
pub struct Engine {
    pending_uciok: u64,
    pending_readyok: u64,
    searching: bool,
    options: OptionRegistry,
    name: Option<String>,
    params: EngineParameters,
    failed: bool,
}

impl View for Engine {
    type V = StateV;

    closed spec fn view(&self) -> StateV {
        StateV {
            pending_uciok: self.pending_uciok,
            pending_readyok: self.pending_readyok,
            searching: self.searching,
            cached_name: self.name.deep_view(),
            options: self.options@,
            max_threads: self.params.max_threads,
            max_hash: self.params.max_hash,
            failed: self.failed,
        }
    }
}

impl Engine {
    /// Internal validity of the registry representation.
    pub closed spec fn wf(&self) -> bool {
        self.options.wf()
    }

    /// A fresh gateway: nothing pending, nothing advertised, not busy.
    ///
    /// The shell then issues the construction handshake: it sends the
    /// handshake-start command, drains to idle, and applies trusted initial
    /// configuration values through the unscreened path.
    pub fn new(params: EngineParameters) -> (r: Engine)
        ensures
            r.wf(),
            r@ == (StateV {
                pending_uciok: 0,
                pending_readyok: 0,
                searching: false,
                cached_name: None,
                options: Map::<Seq<char>, OptView>::empty(),
                max_threads: params.max_threads,
                max_hash: params.max_hash,
                failed: false,
            }),
    {
        Engine {
            pending_uciok: 0,
            pending_readyok: 0,
            searching: false,
            options: OptionRegistry::new(),
            name: None,
            params,
            failed: false,
        }
    }

    /// Unscreened send: admission control without the safety screen.
    ///
    /// Returns `Ok(Some(c))` when `c` must be transmitted (serialized,
    /// written and flushed) by the shell, `Ok(None)` when the command was
    /// silently absorbed, and a typed error when it was refused; nothing is
    /// ever transmitted for an absorbed or refused command.
    pub fn send_dangerous(&mut self, session: Session, command: UciIn) -> (r: Result<
        Option<UciIn>,
        EngineError,
    >)
        requires
            old(self).wf(),
        ensures
            final(self).wf(),
            final(self)@ == send_step(old(self)@, command).0,
            match send_step(old(self)@, command).1 {
                SendOutcome::Sent => r == Ok::<Option<UciIn>, EngineError>(Some(command)),
                SendOutcome::Dropped => r == Ok::<Option<UciIn>, EngineError>(None),
                SendOutcome::Refused(e) => r == Err::<Option<UciIn>, EngineError>(e),
            },
    {
        let _ = session;
        if self.failed {
            return Err(EngineError::TransportError);
        }
        match &command {
            UciIn::Isready => {
                if self.pending_readyok < u64::MAX {
                    self.pending_readyok = self.pending_readyok + 1;
                }
            },
            UciIn::Stop => {},
            UciIn::Ponderhit => {},
            _ => {
                if self.searching {
                    return Err(EngineError::ResourceBusy);
                }
                match &command {
                    UciIn::Uci => {
                        if self.pending_uciok < u64::MAX {
                            self.pending_uciok = self.pending_uciok + 1;
                        }
                        self.options.clear();
                        self.name = None;
                    },
                    UciIn::Go { .. } => {
                        self.searching = true;
                    },
                    UciIn::Setoption { name, value } => {
                        match self.options.get(name.0.as_str()) {
                            Some(option) => {
                                if !option.validate(value) {
                                    return Err(EngineError::InvalidOptionValue);
                                }
                            },
                            None => {
                                return Ok(None);
                            },
                        }
                    },
                    _ => {},
                }
            },
        }
        Ok(Some(command))
    }

    /// Screened send: absorbs a configuration set naming an unsafe option,
    /// then delegates to the unscreened path.
    pub fn send(&mut self, session: Session, command: UciIn) -> (r: Result<
        Option<UciIn>,
        EngineError,
    >)
        requires
            old(self).wf(),
        ensures
            final(self).wf(),
            final(self)@ == send_screened_step(old(self)@, command).0,
            match send_screened_step(old(self)@, command).1 {
                SendOutcome::Sent => r == Ok::<Option<UciIn>, EngineError>(Some(command)),
                SendOutcome::Dropped => r == Ok::<Option<UciIn>, EngineError>(None),
                SendOutcome::Refused(e) => r == Err::<Option<UciIn>, EngineError>(e),
            },
    {
        let screened = match &command {
            UciIn::Setoption { name, .. } => !name.is_safe(),
            _ => false,
        };
        if screened {
            return Ok(None);
        }
        self.send_dangerous(session, command)
    }

    /// Applies one read outcome from the engine's output stream.
    ///
    /// Returns `Ok(Some(event))` for a reportable event, `Ok(None)` for
    /// recognized noise (the shell reads again), and a fatal error for a
    /// closed stream or an undecodable line, after which the instance
    /// refuses all further work.
    pub fn recv(&mut self, session: Session, input: RecvInput) -> (r: Result<
        Option<UciOut>,
        EngineError,
    >)
        requires
            old(self).wf(),
        ensures
            final(self).wf(),
            final(self)@ == recv_step(old(self)@, input).0,
            match recv_step(old(self)@, input).1 {
                RecvNote::Fatal(e) => r == Err::<Option<UciOut>, EngineError>(e),
                RecvNote::Skipped => r == Ok::<Option<UciOut>, EngineError>(None),
                RecvNote::Reported => match input {
                    RecvInput::Event(e) => match e {
                        UciOut::OptionDecl { name, option } => match r {
                            Ok(Some(UciOut::OptionDecl { name: n2, option: o2 })) => n2@ == name@
                                && o2@ == clamp_for(old(self)@, name@, option@),
                            _ => false,
                        },
                        _ => r == Ok::<Option<UciOut>, EngineError>(Some(e)),
                    },
                    _ => false,
                },
            },
    {
        let _ = session;
        if self.failed {
            return Err(EngineError::TransportError);
        }
        let event = match input {
            RecvInput::Closed => {
                self.failed = true;
                return Err(EngineError::TransportError);
            },
            RecvInput::Malformed => {
                self.failed = true;
                return Err(EngineError::ProtocolDecodeError);
            },
            RecvInput::Event(e) => e,
        };
        let skip = match &event {
            UciOut::Info { pv, score, string, .. } => pv.is_none() && score.is_none()
                && string.is_none(),
            _ => false,
        };
        if skip {
            return Ok(None);
        }
        match event {
            UciOut::IdName(n) => {
                self.name = Some(n.clone());
                Ok(Some(UciOut::IdName(n)))
            },
            UciOut::Uciok => {
                if self.pending_uciok > 0 {
                    self.pending_uciok = self.pending_uciok - 1;
                }
                Ok(Some(UciOut::Uciok))
            },
            UciOut::Readyok => {
                if self.pending_readyok > 0 {
                    self.pending_readyok = self.pending_readyok - 1;
                }
                Ok(Some(UciOut::Readyok))
            },
            UciOut::Bestmove { mv } => {
                self.searching = false;
                Ok(Some(UciOut::Bestmove { mv }))
            },
            UciOut::OptionDecl { name, option } => {
                let limited = if str_eq(name.0.as_str(), "Threads") {
                    option.limit_max(self.params.max_threads as i64)
                } else if str_eq(name.0.as_str(), "Hash") {
                    option.limit_max(self.params.max_hash as i64)
                } else {
                    option
                };
                self.options.insert(name.duplicate(), limited.duplicate());
                Ok(Some(UciOut::OptionDecl { name, option: limited }))
            },
            other => Ok(Some(other)),
        }
    }

    /// The identity text announced by the engine, if any.
    pub fn name(&self) -> (r: Option<&str>)
        ensures
            match self@.cached_name {
                Some(n) => r matches Some(s) && s@ == n,
                None => r is None,
            },
    {
        match &self.name {
            Some(s) => Some(s.as_str()),
            None => None,
        }
    }

    /// The usable thread-count ceiling: the declared maximum of the
    /// well-known thread option, after clamping, defaulting to one.
    pub fn max_threads(&self) -> (r: i64)
        requires
            self.wf(),
        ensures
            r as int == advertised_max(self@.options, "Threads"@, 1),
    {
        match self.options.get("Threads") {
            Some(o) => match o.max() {
                Some(m) => m,
                None => 1,
            },
            None => 1,
        }
    }

    /// The usable memory-size ceiling: the declared maximum of the
    /// well-known memory option, after clamping, defaulting to sixteen.
    pub fn max_hash(&self) -> (r: i64)
        requires
            self.wf(),
        ensures
            r as int == advertised_max(self@.options, "Hash"@, 16),
    {
        match self.options.get("Hash") {
            Some(o) => match o.max() {
                Some(m) => m,
                None => 16,
            },
            None => 16,
        }
    }

    /// The advertised operating modes, read from the well-known enumerated
    /// option, defaulting to an empty list.
    pub fn variants(&self) -> (r: Vec<String>)
        requires
            self.wf(),
        ensures
            r.deep_view() == advertised_variants(self@.options),
    {
        let empty: Vec<String> = Vec::new();
        proof {
            assert(empty.deep_view() =~= Seq::<Seq<char>>::empty());
        }
        match self.options.get("UCI_Variant") {
            Some(o) => match o.var() {
                Some(v) => crate::options::clone_strings(v),
                None => empty,
            },
            None => empty,
        }
    }

    /// The busy flag, queryable without side effects.
    pub fn is_searching(&self) -> (r: bool)
        ensures
            r == self@.searching,
    {
        self.searching
    }

    /// The idle predicate: no pending acknowledgments and no running search.
    pub fn is_idle(&self) -> (r: bool)
        ensures
            r == self@.idle(),
            r <==> (self@.pending_uciok == 0 && self@.pending_readyok == 0 && !self@.searching),
    {
        self.pending_uciok == 0 && self.pending_readyok == 0 && !self.searching
    }

    /// The instance saw a fatal transport or decode error.
    pub fn has_failed(&self) -> (r: bool)
        ensures
            r == self@.failed,
    {
        self.failed
    }

    /// One step of ensure-idle.
    ///
    /// `Ok(None)` means the engine is idle and the orchestration is done.
    /// `Ok(Some(cmds))` means: transmit `cmds` (an interrupt followed by a
    /// readiness probe when a search would otherwise stall the wait, empty
    /// otherwise), then apply one read outcome through `recv`, then step
    /// again.
    pub fn ensure_idle(&mut self, session: Session) -> (r: Result<Option<Vec<UciIn>>, EngineError>)
        requires
            old(self).wf(),
        ensures
            final(self).wf(),
            old(self)@.failed ==> r == Err::<Option<Vec<UciIn>>, EngineError>(
                EngineError::TransportError,
            ) && final(self)@ == old(self)@,
            !old(self)@.failed ==> final(self)@ == idle_step_state(old(self)@) && match r {
                Ok(None) => idle_step_plan(old(self)@) is None,
                Ok(Some(v)) => idle_step_plan(old(self)@) == Some(v@),
                Err(_) => false,
            },
    {
        if self.failed {
            return Err(EngineError::TransportError);
        }
        if self.is_idle() {
            return Ok(None);
        }
        let mut cmds: Vec<UciIn> = Vec::new();
        if self.searching && self.pending_readyok < 1 {
            match self.send(session, UciIn::Stop) {
                Ok(Some(c)) => cmds.push(c),
                Ok(None) => {},
                Err(e) => {
                    return Err(e);
                },
            }
            match self.send(session, UciIn::Isready) {
                Ok(Some(c)) => cmds.push(c),
                Ok(None) => {},
                Err(e) => {
                    return Err(e);
                },
            }
            proof {
                assert(cmds@ =~= seq![UciIn::Stop, UciIn::Isready]);
            }
        }
        Ok(Some(cmds))
    }

    /// The clean-boundary commands, issued from an idle state.
    ///
    /// The shell drains to idle first (by stepping `ensure_idle`), then
    /// transmits the returned new-game reset and readiness probe, then
    /// drains to idle again.
    pub fn ensure_newgame(&mut self, session: Session) -> (r: Result<Vec<UciIn>, EngineError>)
        requires
            old(self).wf(),
            old(self)@.idle(),
        ensures
            final(self).wf(),
            old(self)@.failed ==> r == Err::<Vec<UciIn>, EngineError>(EngineError::TransportError)
                && final(self)@ == old(self)@,
            !old(self)@.failed ==> final(self)@ == (StateV {
                pending_readyok: 1,
                ..old(self)@
            }) && match r {
                Ok(v) => v@ == seq![UciIn::Ucinewgame, UciIn::Isready],
                Err(_) => false,
            },
    {
        let mut cmds: Vec<UciIn> = Vec::new();
        match self.send(session, UciIn::Ucinewgame) {
            Ok(Some(c)) => cmds.push(c),
            Ok(None) => {},
            Err(e) => {
                return Err(e);
            },
        }
        match self.send(session, UciIn::Isready) {
            Ok(Some(c)) => cmds.push(c),
            Ok(None) => {},
            Err(e) => {
                return Err(e);
            },
        }
        proof {
            assert(cmds@ =~= seq![UciIn::Ucinewgame, UciIn::Isready]);
        }
        Ok(cmds)
    }
}

} // verus!
