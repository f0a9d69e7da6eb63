use noodle::addr::{Ipv4, Mac};
use noodle::announcer::{Next, SendOutcome};
use noodle::options::{
    find_link, prep, str_to_secs, vet, Args, Checked, Info, Ipv4Net, Link, LogLevel, Logging,
    Prep, PrepError, Severity, Watch,
};
use noodle::supervisor::Terms;
use noodle::text::{is_word, parse_u64, NumberError};
use noodle::time::Span;
use noodle::watcher::Policy;

const ETH0: Mac = Mac(0x02, 0x42, 0xac, 0x11, 0x00, 0x02);

fn link(name: &str) -> Link {
    Link {
        name: name.to_string(),
        index: 2,
        mac: Some(ETH0),
        up: true,
        loopback: false,
        point_to_point: false,
    }
}

fn links() -> Vec<Link> {
    let mut lo = link("lo");
    lo.index = 1;
    lo.loopback = true;
    lo.mac = None;
    vec![lo, link("eth0")]
}

fn args() -> Args {
    let mut args = Args::new();
    args.interface = Some("eth0".to_string());
    args.ip = Some(Ipv4Net::host(Ipv4(10, 0, 0, 42)));
    args
}

fn plan_of(args: Args) -> noodle::options::Plan {
    match prep(args, &links()) {
        Ok(Prep::Run(plan)) => plan,
        other => panic!("no plan: {:?}", other),
    }
}

fn error_of(args: Args, links: &Vec<Link>) -> PrepError {
    match prep(args, links) {
        Err(e) => e,
        other => panic!("no error: {:?}", other),
    }
}

#[test]
fn seconds_are_read() {
    assert_eq!(str_to_secs("0"), Ok(Span { millis: 0 }));
    assert_eq!(str_to_secs("10"), Ok(Span { millis: 10_000 }));
    assert_eq!(str_to_secs("+7"), Ok(Span { millis: 7_000 }));
    assert_eq!(str_to_secs("007"), Ok(Span { millis: 7_000 }));
    assert_eq!(
        str_to_secs("18446744073709551615"),
        Ok(Span { millis: 18_446_744_073_709_551_615_000 })
    );
}

#[test]
fn seconds_errors_are_those_of_the_standard_parser() {
    for text in [
        "", "+", "-", "-1", "1.5", " 1", "1 ", "ten", "1e3", "18446744073709551616",
        "99999999999999999999999", "99999999999999999999999x", "9x99999999999999999999",
        "++1", "+-1", "0x10", "１２", "1_000",
    ] {
        let expected = text.parse::<u64>().unwrap_err().to_string();
        assert_eq!(str_to_secs(text), Err(expected), "for {:?}", text);
    }
}

#[test]
fn numbers_agree_with_the_standard_parser() {
    for text in ["0", "1", "+0", "42", "000", "18446744073709551615", "+18446744073709551615"] {
        assert_eq!(parse_u64(text).ok(), text.parse::<u64>().ok(), "for {:?}", text);
    }
    assert_eq!(parse_u64(""), Err(NumberError::Empty));
    assert_eq!(parse_u64("+"), Err(NumberError::InvalidDigit));
    assert_eq!(parse_u64("12a"), Err(NumberError::InvalidDigit));
    assert_eq!(parse_u64("18446744073709551616"), Err(NumberError::TooLarge));
    assert_eq!(NumberError::Empty.message(), "cannot parse integer from empty string");
    assert_eq!(NumberError::InvalidDigit.message(), "invalid digit found in string");
    assert_eq!(NumberError::TooLarge.message(), "number too large to fit in target type");
}

#[test]
fn words_match_whatever_their_case() {
    assert!(is_word("fail", "fail"));
    assert!(is_word("FaIl", "fail"));
    assert!(!is_word("fail ", "fail"));
    assert!(!is_word("fai", "fail"));
    assert!(!is_word("", "fail"));
    assert!(is_word("", ""));
    assert!(!is_word("\u{212a}", "k"));
}

#[test]
fn watch_values_are_read() {
    assert_eq!(Watch::from_str("fail"), Ok(Watch::Fail));
    assert_eq!(Watch::from_str("QUIT"), Ok(Watch::Quit));
    assert_eq!(Watch::from_str("Log"), Ok(Watch::Log));
    assert_eq!(Watch::from_str("no"), Ok(Watch::No));
    assert_eq!(Watch::from_str("none"), Err("invalid --watch value".to_string()));
    assert_eq!(Watch::from_str(""), Err("invalid --watch value".to_string()));
    assert_eq!("quit".parse::<Watch>(), Ok(Watch::Quit));
    assert_eq!("nope".parse::<Watch>(), Err("invalid --watch value".to_string()));
    assert_eq!(Watch::default(), Watch::Fail);
}

#[test]
fn watch_values_name_a_policy() {
    assert_eq!(Watch::Fail.policy(), Some(Policy::Fail));
    assert_eq!(Watch::Quit.policy(), Some(Policy::Quit));
    assert_eq!(Watch::Log.policy(), Some(Policy::Log));
    assert_eq!(Watch::No.policy(), None);
}

#[test]
fn log_levels_are_read() {
    assert_eq!(LogLevel::from_str("no"), Ok(LogLevel::No));
    assert_eq!(LogLevel::from_str("None"), Ok(LogLevel::No));
    assert_eq!(LogLevel::from_str("error"), Ok(LogLevel::Error));
    assert_eq!(LogLevel::from_str("warn"), Ok(LogLevel::Warn));
    assert_eq!(LogLevel::from_str("WARNING"), Ok(LogLevel::Warn));
    assert_eq!(LogLevel::from_str("info"), Ok(LogLevel::Info));
    assert_eq!(LogLevel::from_str("debug"), Ok(LogLevel::Debug));
    assert_eq!(LogLevel::from_str("verbose"), Ok(LogLevel::Debug));
    assert_eq!(LogLevel::from_str("trace"), Ok(LogLevel::Trace));
    assert_eq!(LogLevel::from_str("off"), Err("invalid --log value".to_string()));
    assert_eq!("Trace".parse::<LogLevel>(), Ok(LogLevel::Trace));
    assert_eq!(LogLevel::default(), LogLevel::Info);
}

#[test]
fn log_levels_set_the_logger_up() {
    assert_eq!(LogLevel::No.logging(), None);
    let own = |severity| Some(Logging { severity, all_modules: false, with_module: false });
    assert_eq!(LogLevel::Error.logging(), own(Severity::Error));
    assert_eq!(LogLevel::Warn.logging(), own(Severity::Warn));
    assert_eq!(LogLevel::Info.logging(), own(Severity::Info));
    assert_eq!(LogLevel::Debug.logging(), own(Severity::Debug));
    assert_eq!(
        LogLevel::Trace.logging(),
        Some(Logging { severity: Severity::Trace, all_modules: true, with_module: true })
    );
}

#[test]
fn defaults_are_those_of_the_command_line() {
    let args = Args::new();
    assert_eq!(args.interface, None);
    assert_eq!(args.ip, None);
    assert_eq!(args.mac, None);
    assert_eq!(args.target, Mac(0xff, 0xff, 0xff, 0xff, 0xff, 0xff));
    assert_eq!(args.log, LogLevel::Info);
    assert_eq!(args.interval, Span::from_secs(10));
    assert_eq!(args.delay, Span::zero());
    assert_eq!(args.watch_delay, Span::zero());
    assert_eq!(args.jitter, Span::from_secs(1));
    assert_eq!(args.count, 0);
    assert_eq!(args.watch, Watch::Fail);
    assert!(!args.watch_immediately && !args.arp_reply && !args.unmanaged_ip);
    assert!(!args.die_if_ip_exists && !args.remove_pre_existing_ip && !args.once);
    assert!(!args.source && !args.readme && !args.version);
    assert_eq!(Ipv4Net::host(Ipv4(1, 2, 3, 4)), Ipv4Net { ip: Ipv4(1, 2, 3, 4), prefix: 32 });
}

#[test]
fn once_sends_one_request_to_everyone_and_starts_no_watcher() {
    let mut a = args();
    a.once = true;
    a.delay = Span::from_secs(5);
    a.count = 7;
    let plan = plan_of(a);
    assert_eq!(plan.args.delay, Span::zero());
    assert_eq!(plan.args.jitter, Span::zero());
    assert_eq!(plan.args.count, 1);
    assert_eq!(plan.args.watch, Watch::No);
    assert_eq!(plan.mac, ETH0);
    assert_eq!(plan.link, 1);
    assert_eq!(plan.if_index, 2);
    assert!(plan.ip_managed);
    assert_eq!(plan.watcher(), None);
    assert_eq!(
        plan.terms(),
        Terms { manage_ip: true, die_if_exists: false, remove_preexisting: false, watch: false }
    );
    let mut announcer = plan.announcer();
    let wire = announcer.wire();
    assert_eq!(&wire[0..6], &[0xff; 6]);
    assert_eq!(&wire[6..12], &[0x02, 0x42, 0xac, 0x11, 0x00, 0x02]);
    assert_eq!(&wire[12..14], &[0x08, 0x06]);
    assert_eq!(&wire[20..22], &[0x00, 0x01]);
    assert_eq!(&wire[22..28], &[0x02, 0x42, 0xac, 0x11, 0x00, 0x02]);
    assert_eq!(&wire[28..32], &[10, 0, 0, 42]);
    assert_eq!(&wire[32..38], &[0x02, 0x42, 0xac, 0x11, 0x00, 0x02]);
    assert_eq!(&wire[38..42], &[10, 0, 0, 42]);
    assert_eq!(announcer.after_send(SendOutcome::Sent), Ok(Next::Finished));
}

#[test]
fn a_plan_carries_the_options_to_the_workers() {
    let mut a = args();
    a.arp_reply = true;
    a.count = 3;
    a.interval = Span::from_secs(1);
    a.jitter = Span::zero();
    a.watch = Watch::Quit;
    a.watch_immediately = true;
    a.unmanaged_ip = true;
    a.die_if_ip_exists = true;
    a.remove_pre_existing_ip = true;
    a.mac = Some(Mac(1, 1, 1, 1, 1, 1));
    a.target = Mac(2, 2, 2, 2, 2, 2);
    let plan = plan_of(a);
    assert_eq!(plan.mac, Mac(1, 1, 1, 1, 1, 1));
    let announcer = plan.announcer();
    assert!(announcer.reply);
    assert_eq!(announcer.count, 3);
    assert_eq!(announcer.target, Mac(2, 2, 2, 2, 2, 2));
    assert_eq!(announcer.mac, Mac(1, 1, 1, 1, 1, 1));
    assert!(!announcer.watch_pending);
    let watcher = plan.watcher().unwrap();
    assert_eq!(watcher.policy, Policy::Quit);
    assert_eq!(watcher.ip, Ipv4(10, 0, 0, 42));
    assert_eq!(watcher.mac, Mac(1, 1, 1, 1, 1, 1));
    assert_eq!(
        plan.terms(),
        Terms { manage_ip: false, die_if_exists: true, remove_preexisting: true, watch: true }
    );
}

#[test]
fn printing_comes_before_checking() {
    let mut a = Args::new();
    a.jitter = Span::from_secs(100);
    a.version = true;
    assert!(matches!(prep(a.clone(), &links()), Ok(Prep::Show(Info::Version))));
    a.readme = true;
    assert!(matches!(prep(a.clone(), &links()), Ok(Prep::Show(Info::Readme))));
    a.source = true;
    assert!(matches!(prep(a.clone(), &links()), Ok(Prep::Show(Info::Source))));
    assert_eq!(a.info(), Some(Info::Source));
    assert!(matches!(a.check(), Ok(Checked::Show(Info::Source))));
    assert_eq!(Args::new().info(), None);
}

#[test]
fn jitter_above_the_interval_is_turned_down() {
    let mut a = args();
    a.jitter = Span::from_secs(11);
    assert_eq!(error_of(a.clone(), &links()), PrepError::JitterExceedsInterval);
    a.jitter = Span::from_secs(10);
    assert!(matches!(prep(a.clone(), &links()), Ok(Prep::Run(_))));
    a.jitter = Span::from_secs(11);
    a.once = true;
    assert!(matches!(prep(a, &links()), Ok(Prep::Run(_))));
}

#[test]
fn missing_options_are_named() {
    let mut a = args();
    a.interface = None;
    assert_eq!(error_of(a, &links()), PrepError::MissingInterface);
    let mut a = args();
    a.ip = None;
    assert_eq!(error_of(a, &links()), PrepError::MissingIp);
    assert_eq!(error_of(Args::new(), &links()), PrepError::MissingInterfaceAndIp);
    let mut a = Args::new();
    a.jitter = Span::from_secs(11);
    assert_eq!(error_of(a, &links()), PrepError::JitterExceedsInterval);
}

#[test]
fn the_interface_is_vetted() {
    let mut a = args();
    a.interface = Some("eth1".to_string());
    assert_eq!(error_of(a, &links()), PrepError::NoSuchInterface);
    let mut a = args();
    a.interface = Some("lo".to_string());
    assert_eq!(error_of(a, &links()), PrepError::Loopback);

    let mut ptp = link("eth0");
    ptp.point_to_point = true;
    ptp.up = false;
    assert_eq!(error_of(args(), &vec![ptp]), PrepError::PointToPoint);
    let mut down = link("eth0");
    down.up = false;
    down.mac = None;
    assert_eq!(error_of(args(), &vec![down]), PrepError::LinkDown);
    let mut bare = link("eth0");
    bare.mac = None;
    assert_eq!(vet(&bare, None), Err(PrepError::NoMac));
    assert_eq!(vet(&bare, Some(ETH0)), Ok(ETH0));
    assert_eq!(error_of(args(), &vec![bare]), PrepError::NoMac);
    assert_eq!(error_of(args(), &Vec::new()), PrepError::NoSuchInterface);
}

#[test]
fn the_first_interface_of_a_name_is_taken() {
    let mut second = link("eth0");
    second.index = 9;
    let all = vec![link("eth1"), link("eth0"), second];
    assert_eq!(find_link(&all, &"eth0".to_string()), Some(1));
    assert_eq!(find_link(&all, &"eth".to_string()), None);
    assert_eq!(find_link(&all, &"ETH0".to_string()), None);
    match prep(args(), &all) {
        Ok(Prep::Run(plan)) => {
            assert_eq!(plan.link, 1);
            assert_eq!(plan.if_index, 2);
        }
        other => panic!("no plan: {:?}", other),
    }
}

#[test]
fn long_delays_and_intervals_are_marked() {
    let plan = plan_of(args());
    assert!(!plan.long_delay && !plan.long_interval);
    let mut a = args();
    a.delay = Span::from_secs(86401);
    a.interval = Span::from_secs(86400);
    let plan = plan_of(a);
    assert!(plan.long_delay && !plan.long_interval);
    let mut a = args();
    a.interval = Span::from_secs(86401);
    let plan = plan_of(a);
    assert!(!plan.long_delay && plan.long_interval);
}

#[test]
fn preflight_errors_in_words() {
    assert_eq!(PrepError::JitterExceedsInterval.message(), "jitter > interval makes no sense");
    assert_eq!(PrepError::MissingInterface.message(), "missing required option: --interface");
    assert_eq!(PrepError::MissingIp.message(), "missing required option: --ip");
    assert_eq!(
        PrepError::MissingInterfaceAndIp.message(),
        "missing required options: --interface, --ip"
    );
    assert_eq!(PrepError::NoSuchInterface.message(), "interface does not exist");
    assert_eq!(PrepError::Loopback.message(), "cannot use loopback interface");
    assert_eq!(PrepError::PointToPoint.message(), "cannot use point-to-point interface");
    assert_eq!(PrepError::LinkDown.message(), "interface must be up");
    assert_eq!(PrepError::NoMac.message(), "interface does not have a mac address");
}
