use song_sequence_director::control::{get_section, set_section};
use song_sequence_director::section::SectionState;
use song_sequence_director::signal::{ChangePoll, Hub};
use song_sequence_director::viewer::{ViewerAction, ViewerConnection, ViewerEvent, ViewerState};

fn section(kind: Option<char>, ordinal: Option<usize>) -> SectionState {
    SectionState { kind, ordinal }
}

#[test]
fn initial_value_is_empty() {
    let hub = Hub::new();
    let v = hub.read();
    assert_eq!(v, section(None, None));
    assert_eq!(
        song_sequence_director::wire::section_segments_to_string(&v),
        ""
    );
}

#[test]
fn set_section_is_read_back() {
    let mut hub = Hub::new();
    let r = set_section(&mut hub, section(Some('C'), None));
    assert!(r.is_ok());
    assert_eq!(get_section(&hub), section(Some('C'), None));
}

#[test]
fn immediate_hydration_sends_current_value() {
    let mut hub = Hub::new();
    set_section(&mut hub, section(Some('V'), Some(1))).unwrap();
    set_section(&mut hub, section(Some('V'), Some(2))).unwrap();

    let mut viewer = ViewerConnection::accept(&hub.signal);
    let action = viewer.on_event(ViewerEvent::Established, &hub);
    assert_eq!(action, ViewerAction::SendText(String::from("V2")));
    assert_eq!(viewer.state, ViewerState::Streaming);
}

#[test]
fn hydration_of_fresh_hub_sends_empty_frame() {
    let hub = Hub::new();
    let mut viewer = ViewerConnection::accept(&hub.signal);
    let action = viewer.on_event(ViewerEvent::Established, &hub);
    assert_eq!(action, ViewerAction::SendText(String::new()));
}

#[test]
fn rapid_replaces_coalesce_to_final_value() {
    let mut hub = Hub::new();
    let mut viewer = ViewerConnection::accept(&hub.signal);
    viewer.on_event(ViewerEvent::Established, &hub);

    set_section(&mut hub, section(Some('C'), None)).unwrap();
    set_section(&mut hub, section(Some('V'), Some(1))).unwrap();
    set_section(&mut hub, section(Some('E'), Some(4))).unwrap();

    let action = viewer.on_event(ViewerEvent::Wake, &hub);
    assert_eq!(action, ViewerAction::SendText(String::from("E4")));

    // All three replacements were one wake; nothing is queued behind it.
    let again = viewer.on_event(ViewerEvent::Wake, &hub);
    assert_eq!(again, ViewerAction::Idle);
}

#[test]
fn closing_one_viewer_leaves_the_other_alone() {
    let mut hub = Hub::new();
    let mut a = ViewerConnection::accept(&hub.signal);
    let mut b = ViewerConnection::accept(&hub.signal);
    a.on_event(ViewerEvent::Established, &hub);
    b.on_event(ViewerEvent::Established, &hub);

    let before = hub;
    let close_action = a.on_event(ViewerEvent::PeerClosed, &hub);
    assert_eq!(close_action, ViewerAction::Idle);
    assert_eq!(a.state, ViewerState::Closed);
    assert_eq!(hub, before);

    set_section(&mut hub, section(Some('P'), None)).unwrap();
    let action = b.on_event(ViewerEvent::Wake, &hub);
    assert_eq!(action, ViewerAction::SendText(String::from("P")));

    // The closed connection stays closed and silent whatever arrives.
    assert_eq!(a.on_event(ViewerEvent::Wake, &hub), ViewerAction::Idle);
    assert_eq!(a.state, ViewerState::Closed);
}

#[test]
fn racing_replaces_leave_one_whole_value() {
    let first = section(Some('C'), None);
    let second = section(Some('V'), Some(2));

    for order in [[first, second], [second, first]] {
        let mut hub = Hub::new();
        let mut viewer = ViewerConnection::accept(&hub.signal);
        viewer.on_event(ViewerEvent::Established, &hub);

        set_section(&mut hub, order[0]).unwrap();
        set_section(&mut hub, order[1]).unwrap();

        let settled = hub.read();
        assert!(settled == first || settled == second);
        assert_eq!(settled, order[1]);

        let action = viewer.on_event(ViewerEvent::Wake, &hub);
        let expected = song_sequence_director::wire::section_segments_to_string(&settled);
        assert_eq!(action, ViewerAction::SendText(expected));
    }
}

#[test]
fn redundant_write_still_notifies() {
    let mut hub = Hub::new();
    set_section(&mut hub, section(Some('C'), None)).unwrap();

    let mut viewer = ViewerConnection::accept(&hub.signal);
    viewer.on_event(ViewerEvent::Established, &hub);

    let mut watcher = hub.signal.subscribe();
    assert_eq!(watcher.poll_change(&hub.signal), ChangePoll::Pending);

    let current = hub.read();
    set_section(&mut hub, current).unwrap();

    assert_eq!(watcher.poll_change(&hub.signal), ChangePoll::Changed);
    let action = viewer.on_event(ViewerEvent::Wake, &hub);
    assert_eq!(action, ViewerAction::SendText(String::from("C")));
}

#[test]
fn send_failure_closes_only_that_connection() {
    let mut hub = Hub::new();
    let mut viewer = ViewerConnection::accept(&hub.signal);
    viewer.on_event(ViewerEvent::Established, &hub);

    let action = viewer.on_event(ViewerEvent::SendFailed, &hub);
    assert_eq!(action, ViewerAction::Idle);
    assert_eq!(viewer.state, ViewerState::Closed);

    set_section(&mut hub, section(Some('R'), None)).unwrap();
    assert_eq!(get_section(&hub), section(Some('R'), None));
}

#[test]
fn closed_producer_closes_the_socket_after_last_value() {
    let mut hub = Hub::new();
    let mut viewer = ViewerConnection::accept(&hub.signal);
    viewer.on_event(ViewerEvent::Established, &hub);

    set_section(&mut hub, section(Some('W'), None)).unwrap();
    hub.close();

    // The final write outranks the shutdown: it is still delivered.
    let action = viewer.on_event(ViewerEvent::Wake, &hub);
    assert_eq!(action, ViewerAction::SendText(String::from("W")));

    // Only then does the wake report the producer gone.
    let after = viewer.on_event(ViewerEvent::Wake, &hub);
    assert_eq!(after, ViewerAction::CloseSocket);
    assert_eq!(viewer.state, ViewerState::Closed);
}

#[test]
fn no_send_before_hydration() {
    let mut hub = Hub::new();
    let mut viewer = ViewerConnection::accept(&hub.signal);
    set_section(&mut hub, section(Some('C'), None)).unwrap();

    // A wake while still connecting emits nothing; hydration comes first.
    assert_eq!(viewer.on_event(ViewerEvent::Wake, &hub), ViewerAction::Idle);
    assert_eq!(viewer.state, ViewerState::Connecting);

    let action = viewer.on_event(ViewerEvent::Established, &hub);
    assert_eq!(action, ViewerAction::SendText(String::from("C")));
}
