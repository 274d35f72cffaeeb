use remote_uci::Engine;
use remote_uci::EngineParameters;
use remote_uci::Session;
use remote_uci::options::UciOption;
use remote_uci::options::UciOptionName;
use remote_uci::proto::EngineError;
use remote_uci::proto::RecvInput;
use remote_uci::proto::UciIn;
use remote_uci::proto::UciOut;

fn gateway(max_threads: u32, max_hash: u32) -> Engine {
    Engine::new(EngineParameters { max_threads, max_hash })
}

fn opt_name(s: &str) -> UciOptionName {
    UciOptionName(s.to_string())
}

fn set(name: &str, value: Option<&str>) -> UciIn {
    UciIn::Setoption { name: opt_name(name), value: value.map(|v| v.to_string()) }
}

fn advertise(name: &str, option: UciOption) -> RecvInput {
    RecvInput::Event(UciOut::OptionDecl { name: opt_name(name), option })
}

fn spin(default: i64, min: i64, max: i64) -> UciOption {
    UciOption::Integer { default, min, max }
}

const S: Session = Session(7);

#[test]
fn new_gateway_starts_idle_with_defaults() {
    let e = gateway(8, 64);
    assert!(e.is_idle());
    assert!(!e.is_searching());
    assert!(!e.has_failed());
    assert!(e.name().is_none());
    assert_eq!(e.max_threads(), 1);
    assert_eq!(e.max_hash(), 16);
    assert!(e.variants().is_empty());
}

#[test]
fn search_start_while_busy_is_resource_busy() {
    let mut e = gateway(8, 64);
    let sent = e.send(S, UciIn::Go { params: None }).unwrap();
    assert_eq!(sent, Some(UciIn::Go { params: None }));
    assert!(e.is_searching());
    let r = e.send(S, UciIn::Go { params: Some("infinite".to_string()) });
    assert_eq!(r, Err(EngineError::ResourceBusy));
    let r = e.send(S, UciIn::Ucinewgame);
    assert_eq!(r, Err(EngineError::ResourceBusy));
    let r = e.send(S, UciIn::Uci);
    assert_eq!(r, Err(EngineError::ResourceBusy));
    assert!(e.is_searching());
}

#[test]
fn exempt_commands_pass_while_busy() {
    let mut e = gateway(8, 64);
    e.send(S, UciIn::Go { params: None }).unwrap();
    assert_eq!(e.send(S, UciIn::Isready), Ok(Some(UciIn::Isready)));
    assert_eq!(e.send(S, UciIn::Ponderhit), Ok(Some(UciIn::Ponderhit)));
    assert_eq!(e.send(S, UciIn::Stop), Ok(Some(UciIn::Stop)));
}

#[test]
fn unsafe_option_is_absorbed_not_transmitted() {
    let mut e = gateway(8, 64);
    // Advertised and with a well-formed value: still absorbed.
    e.recv(S, advertise("SyzygyPath", UciOption::Text { default: String::new() })).unwrap();
    assert_eq!(e.send(S, set("SyzygyPath", Some("/var/tables"))), Ok(None));
    assert_eq!(e.send(S, set("Debug Log FILE", Some("out.txt"))), Ok(None));
    assert_eq!(e.send(S, set("EvalFile", None)), Ok(None));
}

#[test]
fn unknown_option_is_absorbed_without_error() {
    let mut e = gateway(8, 64);
    assert_eq!(e.send(S, set("Sliders", Some("3"))), Ok(None));
    assert!(e.is_idle());
}

#[test]
fn out_of_range_value_is_invalid_and_not_transmitted() {
    let mut e = gateway(8, 64);
    e.recv(S, advertise("Threads", spin(1, 1, 512))).unwrap();
    assert_eq!(e.send(S, set("Threads", Some("100"))), Err(EngineError::InvalidOptionValue));
    assert_eq!(e.send(S, set("Threads", Some("0"))), Err(EngineError::InvalidOptionValue));
    assert_eq!(e.send(S, set("Threads", Some("abc"))), Err(EngineError::InvalidOptionValue));
    assert_eq!(e.send(S, set("Threads", None)), Err(EngineError::InvalidOptionValue));
    assert_eq!(e.send(S, set("Threads", Some("8"))), Ok(Some(set("Threads", Some("8")))));
}

#[test]
fn thread_advertisement_is_clamped_to_the_limit_exactly() {
    let mut e = gateway(8, 64);
    let reported = e.recv(S, advertise("Threads", spin(1, 1, 512))).unwrap().unwrap();
    assert_eq!(
        reported,
        UciOut::OptionDecl { name: opt_name("Threads"), option: spin(1, 1, 8) }
    );
    assert_eq!(e.max_threads(), 8);
    // Reprocessing reapplies the clamp from the declared value; it does not
    // compound, and it never raises the stored maximum.
    e.recv(S, advertise("Threads", spin(1, 1, 512))).unwrap();
    assert_eq!(e.max_threads(), 8);
    // A declared maximum below the limit is kept as declared.
    e.recv(S, advertise("Threads", spin(1, 1, 4))).unwrap();
    assert_eq!(e.max_threads(), 4);
}

#[test]
fn hash_advertisement_is_clamped_to_the_limit_exactly() {
    let mut e = gateway(8, 64);
    e.recv(S, advertise("Hash", spin(16, 1, 33554432))).unwrap();
    assert_eq!(e.max_hash(), 64);
    // Other option names are stored as declared.
    e.recv(S, advertise("MultiPV", spin(1, 1, 500))).unwrap();
    assert_eq!(e.send(S, set("MultiPV", Some("500"))), Ok(Some(set("MultiPV", Some("500")))));
}

#[test]
fn ensure_idle_synthesizes_one_interrupt_and_one_probe() {
    let mut e = gateway(8, 64);
    e.send(S, UciIn::Go { params: None }).unwrap();
    let mut stops = 0;
    let mut probes = 0;
    // A cooperative simulated engine: replies to the interrupt with a search
    // result, then acknowledges the probe.
    let mut replies = vec![
        RecvInput::Event(UciOut::Bestmove { mv: Some("e2e4".to_string()) }),
        RecvInput::Event(UciOut::Readyok),
    ]
    .into_iter();
    loop {
        match e.ensure_idle(S).unwrap() {
            None => break,
            Some(cmds) => {
                for c in &cmds {
                    match c {
                        UciIn::Stop => stops += 1,
                        UciIn::Isready => probes += 1,
                        other => panic!("unexpected command {other:?}"),
                    }
                }
                e.recv(S, replies.next().expect("engine done")).unwrap();
            }
        }
    }
    assert_eq!(stops, 1);
    assert_eq!(probes, 1);
    assert!(e.is_idle());
}

#[test]
fn ensure_idle_waits_without_probing_when_not_searching() {
    let mut e = gateway(8, 64);
    e.send(S, UciIn::Uci).unwrap();
    // Pending handshake acknowledgment, but no search: the step asks the
    // shell to wait for events without synthesizing any command.
    assert_eq!(e.ensure_idle(S), Ok(Some(vec![])));
    e.recv(S, RecvInput::Event(UciOut::Uciok)).unwrap();
    assert_eq!(e.ensure_idle(S), Ok(None));
    assert!(e.is_idle());
}

#[test]
fn ensure_newgame_emits_reset_then_probe_and_ends_idle() {
    let mut e = gateway(8, 64);
    assert!(e.is_idle());
    let cmds = e.ensure_newgame(S).unwrap();
    assert_eq!(cmds, vec![UciIn::Ucinewgame, UciIn::Isready]);
    assert!(!e.is_idle());
    e.recv(S, RecvInput::Event(UciOut::Readyok)).unwrap();
    assert!(e.is_idle());
}

#[test]
fn zero_length_read_is_fatal_and_sticky() {
    let mut e = gateway(8, 64);
    assert_eq!(e.recv(S, RecvInput::Closed), Err(EngineError::TransportError));
    assert!(e.has_failed());
    assert_eq!(e.send(S, UciIn::Ucinewgame), Err(EngineError::TransportError));
    assert_eq!(e.send_dangerous(S, UciIn::Isready), Err(EngineError::TransportError));
    assert_eq!(
        e.recv(S, RecvInput::Event(UciOut::Readyok)),
        Err(EngineError::TransportError)
    );
    assert_eq!(e.ensure_idle(S), Err(EngineError::TransportError));
}

#[test]
fn undecodable_line_is_fatal_and_sticky() {
    let mut e = gateway(8, 64);
    assert_eq!(e.recv(S, RecvInput::Malformed), Err(EngineError::ProtocolDecodeError));
    assert!(e.has_failed());
    assert_eq!(e.send(S, UciIn::Isready), Err(EngineError::TransportError));
}

#[test]
fn accepted_value_roundtrips_after_readvertisement() {
    let mut e = gateway(8, 64);
    e.recv(S, advertise("Threads", spin(1, 1, 512))).unwrap();
    let cmd = set("Threads", Some("4"));
    assert_eq!(e.send(S, cmd.clone()), Ok(Some(cmd.clone())));
    e.recv(S, advertise("Threads", spin(1, 1, 512))).unwrap();
    assert_eq!(e.send(S, cmd.clone()), Ok(Some(cmd)));
}

#[test]
fn bare_progress_lines_are_skipped_as_noise() {
    let mut e = gateway(8, 64);
    let noise = RecvInput::Event(UciOut::Info {
        depth: Some(12),
        pv: None,
        score: None,
        string: None,
    });
    assert_eq!(e.recv(S, noise), Ok(None));
    let interesting = UciOut::Info {
        depth: Some(12),
        pv: Some("e2e4 e7e5".to_string()),
        score: Some(31),
        string: None,
    };
    assert_eq!(
        e.recv(S, RecvInput::Event(interesting.clone())),
        Ok(Some(interesting))
    );
}

#[test]
fn identity_announcement_is_cached() {
    let mut e = gateway(8, 64);
    let event = UciOut::IdName("Alpha One 1.0".to_string());
    assert_eq!(e.recv(S, RecvInput::Event(event.clone())), Ok(Some(event)));
    assert_eq!(e.name(), Some("Alpha One 1.0"));
}

#[test]
fn handshake_start_discards_registry_and_identity() {
    let mut e = gateway(8, 64);
    e.recv(S, RecvInput::Event(UciOut::IdName("Alpha".to_string()))).unwrap();
    e.recv(S, advertise("Threads", spin(1, 1, 512))).unwrap();
    assert_eq!(e.max_threads(), 8);
    assert_eq!(e.send(S, UciIn::Uci), Ok(Some(UciIn::Uci)));
    assert_eq!(e.max_threads(), 1);
    assert!(e.name().is_none());
    assert!(!e.is_idle());
    e.recv(S, RecvInput::Event(UciOut::Uciok)).unwrap();
    assert!(e.is_idle());
}

#[test]
fn surplus_acknowledgments_are_tolerated() {
    let mut e = gateway(8, 64);
    assert_eq!(e.recv(S, RecvInput::Event(UciOut::Readyok)), Ok(Some(UciOut::Readyok)));
    assert_eq!(e.recv(S, RecvInput::Event(UciOut::Uciok)), Ok(Some(UciOut::Uciok)));
    assert!(e.is_idle());
}

#[test]
fn variant_list_comes_from_the_enumerated_option() {
    let mut e = gateway(8, 64);
    let option = UciOption::Enumerated {
        default: "standard".to_string(),
        allowed: vec!["standard".to_string(), "puzzle".to_string()],
    };
    e.recv(S, advertise("UCI_Variant", option)).unwrap();
    assert_eq!(e.variants(), vec!["standard".to_string(), "puzzle".to_string()]);
    assert_eq!(
        e.send(S, set("UCI_Variant", Some("puzzle"))),
        Ok(Some(set("UCI_Variant", Some("puzzle"))))
    );
    assert_eq!(
        e.send(S, set("UCI_Variant", Some("blitz"))),
        Err(EngineError::InvalidOptionValue)
    );
}
