use noodle::address::{find_addr_for_ip, AddressRecord, AddressTable, IpAddr, Ipv6};
use noodle::addr::Ipv4;
use noodle::supervisor::{Action, Event, Phase, Supervisor, Terms};

const IP: IpAddr = IpAddr::V4(Ipv4(10, 0, 0, 42));

fn terms(manage_ip: bool, die_if_exists: bool, remove_preexisting: bool, watch: bool) -> Terms {
    Terms { manage_ip, die_if_exists, remove_preexisting, watch }
}

fn present(table: &AddressTable) -> bool {
    table.find(2, &IP).is_some()
}

#[test]
fn once_on_a_managed_address_adds_sends_and_removes() {
    let mut table = AddressTable::new();
    let mut s = Supervisor::new(terms(true, false, false, false));
    assert_eq!(s.step(Event::Start), Action::Probe);
    assert_eq!(s.step(Event::Probed { present: present(&table) }), Action::Add);
    table.add(2, &IP, 32);
    assert!(present(&table));
    assert_eq!(s.step(Event::Added), Action::OpenChannel);
    assert_eq!(s.step(Event::ChannelOpened), Action::Launch { watcher: false });
    assert!(present(&table));
    assert_eq!(s.step(Event::AnnouncerFinished), Action::Probe);
    assert_eq!(s.step(Event::Probed { present: present(&table) }), Action::Remove);
    let at = table.find(2, &IP).unwrap();
    assert!(table.delete(at));
    assert_eq!(s.step(Event::Removed), Action::Exit { code: 0 });
    assert!(!present(&table));
    assert!(s.is_done());
    assert_eq!(s.exit_code(), 0);
    assert_eq!(s.step(Event::Start), Action::Nothing);
    assert_eq!(s.step(Event::Probed { present: false }), Action::Nothing);
    assert_eq!(s.step(Event::Interrupted), Action::Nothing);
    assert!(!present(&table));
}

#[test]
fn die_if_ip_exists_with_the_address_present_exits_1_and_touches_nothing() {
    let mut table = AddressTable::new();
    table.add(2, &IP, 32);
    let mut s = Supervisor::new(terms(true, true, false, true));
    assert_eq!(s.step(Event::Start), Action::Probe);
    assert_eq!(s.step(Event::Probed { present: present(&table) }), Action::Exit { code: 1 });
    assert!(s.is_done());
    assert!(!s.owns_address);
    for event in [
        Event::Added,
        Event::ChannelOpened,
        Event::Interrupted,
        Event::AnnouncerFinished,
        Event::Probed { present: true },
        Event::Removed,
    ] {
        assert_eq!(s.step(event), Action::Nothing);
    }
    assert!(present(&table));
}

#[test]
fn die_if_ip_exists_without_the_address_goes_on() {
    let mut s = Supervisor::new(terms(true, true, false, true));
    assert_eq!(s.step(Event::Start), Action::Probe);
    assert_eq!(s.step(Event::Probed { present: false }), Action::Add);
}

#[test]
fn a_foreign_address_is_left_on_the_interface() {
    let mut s = Supervisor::new(terms(true, false, false, true));
    assert_eq!(s.step(Event::Start), Action::Probe);
    assert_eq!(s.step(Event::Probed { present: true }), Action::OpenChannel);
    assert!(!s.owns_address);
    assert_eq!(s.step(Event::ChannelOpened), Action::Launch { watcher: true });
    assert_eq!(s.step(Event::Interrupted), Action::Exit { code: 0 });
}

#[test]
fn a_foreign_address_is_removed_when_told_to() {
    let mut s = Supervisor::new(terms(true, false, true, true));
    assert_eq!(s.step(Event::Start), Action::Probe);
    assert_eq!(s.step(Event::Probed { present: true }), Action::OpenChannel);
    assert!(s.owns_address);
    assert_eq!(s.step(Event::ChannelOpened), Action::Launch { watcher: true });
    assert_eq!(s.step(Event::Interrupted), Action::Probe);
    assert_eq!(s.step(Event::Probed { present: true }), Action::Remove);
    assert_eq!(s.step(Event::Removed), Action::Exit { code: 0 });
}

#[test]
fn an_unmanaged_run_never_asks_for_the_address_api() {
    let mut s = Supervisor::new(terms(false, true, true, true));
    assert_eq!(s.step(Event::Start), Action::OpenChannel);
    assert_eq!(s.step(Event::Probed { present: true }), Action::Nothing);
    assert_eq!(s.step(Event::ChannelOpened), Action::Launch { watcher: true });
    assert_eq!(s.step(Event::AnnouncerFailed), Action::Exit { code: 1 });
}

#[test]
fn a_missing_record_at_teardown_is_benign() {
    let mut s = Supervisor::new(terms(true, false, false, true));
    s.step(Event::Start);
    s.step(Event::Probed { present: false });
    s.step(Event::Added);
    s.step(Event::ChannelOpened);
    assert_eq!(s.step(Event::WatcherQuit), Action::Probe);
    assert_eq!(s.phase, Phase::Sweeping);
    assert_eq!(s.step(Event::Probed { present: false }), Action::Exit { code: 0 });
}

#[test]
fn teardown_errors_do_not_change_the_exit_code() {
    let mut s = Supervisor::new(terms(true, false, false, true));
    s.step(Event::Start);
    s.step(Event::Probed { present: false });
    s.step(Event::Added);
    s.step(Event::ChannelOpened);
    assert_eq!(s.step(Event::Interrupted), Action::Probe);
    assert_eq!(s.step(Event::AddressError), Action::Exit { code: 0 });

    let mut s = Supervisor::new(terms(true, false, false, true));
    s.step(Event::Start);
    s.step(Event::Probed { present: false });
    s.step(Event::Added);
    s.step(Event::ChannelOpened);
    assert_eq!(s.step(Event::WatcherFailed), Action::Probe);
    assert_eq!(s.step(Event::Probed { present: true }), Action::Remove);
    assert_eq!(s.step(Event::AddressError), Action::Exit { code: 1 });
}

#[test]
fn preflight_errors_are_fatal_and_still_torn_down() {
    let mut s = Supervisor::new(terms(true, false, false, true));
    s.step(Event::Start);
    s.step(Event::Probed { present: false });
    assert_eq!(s.step(Event::AddressError), Action::Probe);
    assert_eq!(s.step(Event::Probed { present: false }), Action::Exit { code: 1 });

    let mut s = Supervisor::new(terms(true, false, false, true));
    s.step(Event::Start);
    s.step(Event::Probed { present: false });
    assert_eq!(s.step(Event::AddressError), Action::Probe);

    let mut s = Supervisor::new(terms(true, false, false, true));
    s.step(Event::Start);
    s.step(Event::Probed { present: false });
    s.step(Event::Added);
    assert_eq!(s.step(Event::ChannelError), Action::Probe);
    assert_eq!(s.step(Event::Probed { present: true }), Action::Remove);
    assert_eq!(s.step(Event::Removed), Action::Exit { code: 1 });

    let mut s = Supervisor::new(terms(false, false, false, true));
    s.step(Event::Start);
    assert_eq!(s.step(Event::ChannelError), Action::Exit { code: 1 });
}

#[test]
fn a_run_without_a_watcher_ignores_watcher_events() {
    let mut s = Supervisor::new(terms(false, false, false, false));
    s.step(Event::Start);
    assert_eq!(s.step(Event::ChannelOpened), Action::Launch { watcher: false });
    assert_eq!(s.step(Event::WatcherQuit), Action::Nothing);
    assert_eq!(s.step(Event::WatcherFailed), Action::Nothing);
    assert_eq!(s.phase, Phase::Running);
    assert_eq!(s.step(Event::AnnouncerFinished), Action::Exit { code: 0 });
}

#[test]
fn events_out_of_turn_change_nothing() {
    let mut s = Supervisor::new(terms(true, false, false, true));
    let before = s;
    for event in [Event::Interrupted, Event::Added, Event::ChannelOpened, Event::Removed] {
        assert_eq!(s.step(event), Action::Nothing);
        assert_eq!(s, before);
    }
}

#[test]
fn lookup_gives_the_first_record_on_the_interface() {
    let records = vec![
        AddressRecord { index: 1, prefix_len: 8, address: Some(vec![10, 0, 0, 42]) },
        AddressRecord { index: 2, prefix_len: 8, address: None },
        AddressRecord { index: 2, prefix_len: 8, address: Some(vec![10, 0, 0, 4]) },
        AddressRecord { index: 2, prefix_len: 8, address: Some(vec![10, 0, 0, 42, 0]) },
        AddressRecord { index: 2, prefix_len: 24, address: Some(vec![10, 0, 0, 42]) },
        AddressRecord { index: 2, prefix_len: 32, address: Some(vec![10, 0, 0, 42]) },
    ];
    assert_eq!(find_addr_for_ip(&records, 2, &IP), Some(4));
    assert_eq!(find_addr_for_ip(&records, 1, &IP), Some(0));
    assert_eq!(find_addr_for_ip(&records, 3, &IP), None);
    assert_eq!(find_addr_for_ip(&records, 2, &IpAddr::V4(Ipv4(10, 0, 0, 5))), None);
    assert_eq!(find_addr_for_ip(&Vec::new(), 2, &IP), None);
}

#[test]
fn lookup_compares_sixteen_octets_for_ipv6() {
    let mut octets = [0_u8; 16];
    octets[0] = 0xfe;
    octets[1] = 0x80;
    octets[15] = 1;
    let mut other = octets;
    other[15] = 2;
    let records = vec![
        AddressRecord { index: 2, prefix_len: 64, address: Some(other.to_vec()) },
        AddressRecord { index: 2, prefix_len: 64, address: Some(octets[..4].to_vec()) },
        AddressRecord { index: 2, prefix_len: 64, address: Some(octets.to_vec()) },
    ];
    assert_eq!(find_addr_for_ip(&records, 2, &IpAddr::V6(Ipv6(octets))), Some(2));
    assert_eq!(IpAddr::V6(Ipv6(octets)).to_octets(), octets.to_vec());
    assert_eq!(IP.to_octets(), vec![10, 0, 0, 42]);
}

#[test]
fn table_adds_at_the_end_and_deletes_in_place() {
    let mut table = AddressTable::new();
    assert!(table.list().is_empty());
    table.add(1, &IP, 24);
    table.add(2, &IP, 32);
    assert_eq!(table.list().len(), 2);
    assert_eq!(table.list()[1].index, 2);
    assert_eq!(table.list()[1].prefix_len, 32);
    assert_eq!(table.list()[1].address, Some(vec![10, 0, 0, 42]));
    assert_eq!(table.find(2, &IP), Some(1));
    assert!(!table.delete(2));
    assert!(table.delete(0));
    assert_eq!(table.find(2, &IP), Some(0));
    assert_eq!(table.find(1, &IP), None);
}

#[test]
fn a_failed_first_lookup_exits_1_and_owns_nothing() {
    for (die, remove) in [(false, false), (true, false), (false, true), (true, true)] {
        let mut s = Supervisor::new(terms(true, die, remove, true));
        assert_eq!(s.step(Event::Start), Action::Probe);
        assert_eq!(s.step(Event::AddressError), Action::Exit { code: 1 });
        assert!(s.is_done());
        assert!(!s.owns_address);
        assert_eq!(s.exit_code(), 1);
        for event in [
            Event::Probed { present: true },
            Event::Probed { present: false },
            Event::Removed,
            Event::Added,
            Event::Interrupted,
        ] {
            assert_eq!(s.step(event), Action::Nothing);
        }
    }
}

#[test]
fn an_address_that_is_there_survives_a_failed_first_lookup() {
    let mut table = AddressTable::new();
    table.add(2, &IP, 32);
    let mut s = Supervisor::new(terms(true, true, false, true));
    assert_eq!(s.step(Event::Start), Action::Probe);
    assert_eq!(s.step(Event::AddressError), Action::Exit { code: 1 });
    assert_eq!(s.step(Event::Probed { present: present(&table) }), Action::Nothing);
    assert_eq!(s.step(Event::Removed), Action::Nothing);
    assert!(present(&table));
    assert_eq!(table.list().len(), 1);
}
