use packet_proxy::packet::game::Direction;
use packet_proxy::server::{
    game, master, server, Close, Command, Drain, Event, Failure, Listener, Raw, Relay, Session,
};

fn all_events() -> Vec<Event> {
    vec![
        Event::Stop,
        Event::Done,
        Event::Fault(Direction::Server),
        Event::Fault(Direction::Client),
        Event::Failed(Failure::EndOfStream),
        Event::Failed(Failure::Other),
    ]
}

fn all_sessions() -> Vec<Session> {
    let mut all = vec![Session::Active];
    for origin in [Direction::Server, Direction::Client] {
        for step in [
            Drain::Queues,
            Drain::ServerBuffer,
            Drain::ClientBuffer,
            Drain::ServerQueue,
            Drain::ClientQueue,
        ] {
            all.push(Session::Draining(origin, step));
        }
        for step in [Raw::Unparsed, Raw::Probe, Raw::ClientRest, Raw::ServerRest, Raw::Copy] {
            all.push(Session::RawRelay(origin, step));
        }
    }
    for step in [Close::Remote, Close::Local, Close::Finished, Close::Failed] {
        all.push(Session::Closed(step));
    }
    all
}

fn rank(session: Session) -> u32 {
    match session {
        Session::Active => 0,
        Session::Draining(_, step) => 1 + step as u32,
        Session::RawRelay(_, step) => 6 + step as u32,
        Session::Closed(Close::Remote) => 11,
        Session::Closed(Close::Local) => 12,
        Session::Closed(_) => 13,
    }
}

#[test]
fn listener_spawns_a_session_for_each_connection() {
    assert_eq!(server(Listener::Accepting, Event::Done), (Listener::Accepting, true));
}

#[test]
fn listener_returns_on_the_stop_signal() {
    assert_eq!(server(Listener::Accepting, Event::Stop), (Listener::Stopped, false));
}

#[test]
fn listener_returns_on_a_failed_accept() {
    assert_eq!(
        server(Listener::Accepting, Event::Failed(Failure::Other)),
        (Listener::Failed, false)
    );
    assert_eq!(
        server(Listener::Accepting, Event::Failed(Failure::EndOfStream)),
        (Listener::Failed, false)
    );
}

#[test]
fn listener_ignores_what_it_does_not_wait_for() {
    assert_eq!(
        server(Listener::Accepting, Event::Fault(Direction::Client)),
        (Listener::Accepting, false)
    );
}

#[test]
fn listener_that_returned_stays_so() {
    for listener in [Listener::Stopped, Listener::Failed] {
        for event in all_events() {
            assert_eq!(server(listener, event), (listener, false));
        }
    }
}

#[test]
fn master_copies_then_closes_both_sockets() {
    let mut relay = Relay::Copying;
    assert_eq!(relay.command(), Command::Copy);
    relay = master(relay, Event::Done);
    assert_eq!(relay, Relay::Closed(Close::Remote));
    assert_eq!(relay.command(), Command::Shutdown(Direction::Server));
    relay = master(relay, Event::Done);
    assert_eq!(relay.command(), Command::Shutdown(Direction::Client));
    relay = master(relay, Event::Done);
    assert_eq!(relay, Relay::Closed(Close::Finished));
    assert_eq!(relay.command(), Command::Return { failed: false });
}

#[test]
fn master_ends_the_copy_on_whatever_comes_first() {
    for event in [
        Event::Stop,
        Event::Done,
        Event::Failed(Failure::EndOfStream),
        Event::Failed(Failure::Other),
    ] {
        assert_eq!(master(Relay::Copying, event), Relay::Closed(Close::Remote));
    }
    assert_eq!(master(Relay::Copying, Event::Fault(Direction::Server)), Relay::Copying);
}

#[test]
fn master_gives_up_on_a_failed_shutdown() {
    for step in [Close::Remote, Close::Local] {
        let relay = master(Relay::Closed(step), Event::Failed(Failure::Other));
        assert_eq!(relay, Relay::Closed(Close::Failed));
        assert_eq!(relay.command(), Command::Return { failed: true });
    }
}

#[test]
fn session_starts_with_the_race() {
    assert_eq!(Session::Active.command(), Command::Race);
}

#[test]
fn session_closes_on_the_stop_signal() {
    let mut session = game(Session::Active, Event::Stop);
    assert_eq!(session.command(), Command::Shutdown(Direction::Server));
    session = game(session, Event::Done);
    assert_eq!(session.command(), Command::Shutdown(Direction::Client));
    session = game(session, Event::Done);
    assert_eq!(session, Session::Closed(Close::Finished));
    assert_eq!(session.command(), Command::Return { failed: false });
}

#[test]
fn end_of_stream_is_no_failure() {
    let ended = game(Session::Active, Event::Done);
    let reported = game(Session::Active, Event::Failed(Failure::EndOfStream));
    assert_eq!(ended, Session::Closed(Close::Remote));
    assert_eq!(reported, ended);
}

#[test]
fn another_failure_gives_the_session_up() {
    let session = game(Session::Active, Event::Failed(Failure::Other));
    assert_eq!(session, Session::Closed(Close::Failed));
    assert_eq!(session.command(), Command::Return { failed: true });
}

#[test]
fn fault_of_the_client_drains_then_relays_raw() {
    let mut session = game(Session::Active, Event::Fault(Direction::Client));
    let mut commands = Vec::new();
    while !matches!(session, Session::Closed(_)) {
        commands.push(session.command());
        session = game(session, Event::Done);
    }
    assert_eq!(
        commands,
        vec![
            Command::CloseQueues,
            Command::Flush(Direction::Server),
            Command::Flush(Direction::Client),
            Command::Drain(Direction::Server),
            Command::Drain(Direction::Client),
            Command::Relay(Direction::Client),
            Command::Probe(Direction::Client),
            Command::Relay(Direction::Client),
            Command::Relay(Direction::Server),
            Command::Copy,
        ]
    );
    assert_eq!(session, Session::Closed(Close::Remote));
}

#[test]
fn fault_of_the_server_drains_then_relays_raw() {
    let mut session = game(Session::Active, Event::Fault(Direction::Server));
    assert_eq!(session, Session::Draining(Direction::Server, Drain::Queues));
    let mut commands = Vec::new();
    while !matches!(session, Session::RawRelay(_, Raw::Copy)) {
        commands.push(session.command());
        session = game(session, Event::Done);
    }
    assert_eq!(
        commands,
        vec![
            Command::CloseQueues,
            Command::Flush(Direction::Server),
            Command::Flush(Direction::Client),
            Command::Drain(Direction::Server),
            Command::Drain(Direction::Client),
            Command::Relay(Direction::Server),
            Command::Probe(Direction::Server),
            Command::Relay(Direction::Client),
            Command::Relay(Direction::Server),
        ]
    );
    assert_eq!(session.command(), Command::Copy);
}

#[test]
fn raw_copy_ends_on_whatever_comes_first() {
    let copying = Session::RawRelay(Direction::Client, Raw::Copy);
    for event in [
        Event::Stop,
        Event::Done,
        Event::Failed(Failure::EndOfStream),
        Event::Failed(Failure::Other),
    ] {
        assert_eq!(game(copying, event), Session::Closed(Close::Remote));
    }
    assert_eq!(game(copying, Event::Fault(Direction::Server)), copying);
}

#[test]
fn failure_while_draining_or_relaying_gives_the_session_up() {
    for session in all_sessions() {
        let waits_for_one_command = match session {
            Session::Draining(_, _) => true,
            Session::RawRelay(_, step) => step != Raw::Copy,
            _ => false,
        };
        if waits_for_one_command {
            for failure in [Failure::EndOfStream, Failure::Other] {
                assert_eq!(game(session, Event::Failed(failure)), Session::Closed(Close::Failed));
            }
            assert_eq!(game(session, Event::Stop), session);
            assert_eq!(game(session, Event::Fault(Direction::Server)), session);
        }
    }
}

#[test]
fn session_never_goes_back() {
    for session in all_sessions() {
        for event in all_events() {
            let next = game(session, event);
            assert!(rank(session) <= rank(next), "{:?} {:?} {:?}", session, event, next);
        }
    }
}

#[test]
fn session_keeps_the_endpoint_at_fault() {
    for session in all_sessions() {
        for event in all_events() {
            let before = match session {
                Session::Draining(origin, _) | Session::RawRelay(origin, _) => Some(origin),
                _ => None,
            };
            let after = match game(session, event) {
                Session::Draining(origin, _) | Session::RawRelay(origin, _) => Some(origin),
                _ => None,
            };
            if before.is_some() && after.is_some() {
                assert_eq!(before, after);
            }
        }
    }
}

#[test]
fn raw_relay_is_entered_from_the_last_step_of_draining() {
    for session in all_sessions() {
        for event in all_events() {
            let next = game(session, event);
            if matches!(next, Session::RawRelay(_, _)) && !matches!(session, Session::RawRelay(_, _)) {
                assert!(matches!(session, Session::Draining(_, Drain::ClientQueue)));
                assert_eq!(event, Event::Done);
            }
            if matches!(next, Session::Draining(_, _)) && !matches!(session, Session::Draining(_, _)) {
                assert_eq!(session, Session::Active);
                assert!(matches!(event, Event::Fault(_)));
            }
        }
    }
}

#[test]
fn session_that_is_over_stays_so() {
    for over in [Session::Closed(Close::Finished), Session::Closed(Close::Failed)] {
        for event in all_events() {
            assert_eq!(game(over, event), over);
        }
    }
}

#[test]
fn failed_shutdown_gives_the_session_up() {
    for step in [Close::Remote, Close::Local] {
        assert_eq!(
            game(Session::Closed(step), Event::Failed(Failure::Other)),
            Session::Closed(Close::Failed)
        );
    }
    assert_eq!(game(Session::Closed(Close::Remote), Event::Stop), Session::Closed(Close::Remote));
}
