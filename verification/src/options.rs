//! The options of a run, and the preflight that turns them into a plan.

use vstd::prelude::*;
use vstd::string::StringExecFns;
use crate::addr::{Ipv4, Mac};
use crate::announcer::Announcer;
use crate::supervisor::Terms;
use crate::text::{is_word, lowered, parse_u64, spec_parse_u64, NumberError};
use crate::time::Span;
use crate::watcher::{Policy, Watcher};

verus! {

/// Reads a number of seconds.
///
/// The text is decimal digits, with or without a plus sign before them; the
/// error says in words why a text is none.
pub fn str_to_secs(s: &str) -> (secs: Result<Span, String>)
    ensures
        match spec_parse_u64(s@) {
            Ok(n) => secs == Ok::<Span, String>(Span { millis: (n * 1000) as u128 }),
            Err(e) => secs matches Err(why) && why@ == e.spec_message(),
        },
{
    match parse_u64(s) {
        Ok(n) => Ok(Span::from_secs(n)),
        Err(e) => Err(e.message()),
    }
}

/// What the watcher does when another station announces the claimed
/// address.
#[derive(Clone, Copy, Debug, PartialEq, Eq, Structural)]
pub enum Watch {
    /// Exit with code 1.
    Fail,
    /// Exit with code 0.
    Quit,
    /// Go on, and log a warning.
    Log,
    /// Do not watch.
    No,
}

impl Default for Watch {
    fn default() -> (watch: Self)
        ensures
            watch == Watch::Fail,
    {
        Watch::Fail
    }
}

impl Watch {
    /// The value that a word names, whatever the case of its letters.
    pub open spec fn spec_from_str(s: Seq<char>) -> Option<Watch> {
        let word = lowered(s);
        if word == "fail"@ {
            Some(Watch::Fail)
        } else if word == "quit"@ {
            Some(Watch::Quit)
        } else if word == "log"@ {
            Some(Watch::Log)
        } else if word == "no"@ {
            Some(Watch::No)
        } else {
            None
        }
    }

    /// Reads the value of `--watch`.
    pub fn from_str(s: &str) -> (watch: Result<Watch, String>)
        ensures
            match Self::spec_from_str(s@) {
                Some(w) => watch == Ok::<Watch, String>(w),
                None => watch matches Err(why) && why@ == "invalid --watch value"@,
            },
    {
        if is_word(s, "fail") {
            Ok(Watch::Fail)
        } else if is_word(s, "quit") {
            Ok(Watch::Quit)
        } else if is_word(s, "log") {
            Ok(Watch::Log)
        } else if is_word(s, "no") {
            Ok(Watch::No)
        } else {
            Err(String::from_str("invalid --watch value"))
        }
    }

    /// The watcher's policy: none where there is no watcher.
    pub open spec fn spec_policy(self) -> Option<Policy> {
        match self {
            Watch::Fail => Some(Policy::Fail),
            Watch::Quit => Some(Policy::Quit),
            Watch::Log => Some(Policy::Log),
            Watch::No => None,
        }
    }

    /// The watcher's policy: none where there is no watcher.
    pub fn policy(self) -> (policy: Option<Policy>)
        ensures
            policy == self.spec_policy(),
    {
        match self {
            Watch::Fail => Some(Policy::Fail),
            Watch::Quit => Some(Policy::Quit),
            Watch::Log => Some(Policy::Log),
            Watch::No => None,
        }
    }
}

impl std::str::FromStr for Watch {
    type Err = String;

    /// Reads the value of `--watch`, as the type's own `from_str` does.
    fn from_str(s: &str) -> (watch: Result<Self, String>)
        ensures
            match Watch::spec_from_str(s@) {
                Some(w) => watch == Ok::<Watch, String>(w),
                None => watch matches Err(why) && why@ == "invalid --watch value"@,
            },
    {
        Watch::from_str(s)
    }
}

/// How much is logged.
#[derive(Clone, Copy, Debug, PartialEq, Eq, Structural)]
pub enum LogLevel {
    No,
    Error,
    Warn,
    Info,
    Debug,
    Trace,
}

/// The least severity that is logged.
#[derive(Clone, Copy, Debug, PartialEq, Eq, Structural)]
pub enum Severity {
    Error,
    Warn,
    Info,
    Debug,
    Trace,
}

/// What a logger is set up with.
#[derive(Clone, Copy, Debug, PartialEq, Eq, Structural)]
pub struct Logging {
    /// The least severity that is logged.
    pub severity: Severity,
    /// Whether every module logs; else this program's own module alone.
    pub all_modules: bool,
    /// Whether each record names the module that it comes from.
    pub with_module: bool,
}

impl Default for LogLevel {
    fn default() -> (level: Self)
        ensures
            level == LogLevel::Info,
    {
        LogLevel::Info
    }
}

impl LogLevel {
    /// The level that a word names, whatever the case of its letters.
    pub open spec fn spec_from_str(s: Seq<char>) -> Option<LogLevel> {
        let word = lowered(s);
        if word == "no"@ || word == "none"@ {
            Some(LogLevel::No)
        } else if word == "error"@ {
            Some(LogLevel::Error)
        } else if word == "warn"@ || word == "warning"@ {
            Some(LogLevel::Warn)
        } else if word == "info"@ {
            Some(LogLevel::Info)
        } else if word == "debug"@ || word == "verbose"@ {
            Some(LogLevel::Debug)
        } else if word == "trace"@ {
            Some(LogLevel::Trace)
        } else {
            None
        }
    }

    /// Reads the value of `--log`.
    pub fn from_str(s: &str) -> (level: Result<LogLevel, String>)
        ensures
            match Self::spec_from_str(s@) {
                Some(l) => level == Ok::<LogLevel, String>(l),
                None => level matches Err(why) && why@ == "invalid --log value"@,
            },
    {
        if is_word(s, "no") || is_word(s, "none") {
            Ok(LogLevel::No)
        } else if is_word(s, "error") {
            Ok(LogLevel::Error)
        } else if is_word(s, "warn") || is_word(s, "warning") {
            Ok(LogLevel::Warn)
        } else if is_word(s, "info") {
            Ok(LogLevel::Info)
        } else if is_word(s, "debug") || is_word(s, "verbose") {
            Ok(LogLevel::Debug)
        } else if is_word(s, "trace") {
            Ok(LogLevel::Trace)
        } else {
            Err(String::from_str("invalid --log value"))
        }
    }

    /// The logger that the level asks for: none at `No`; at `Trace` every
    /// module logs and each record names its module; below it this program's
    /// own module logs, at the level's severity.
    pub open spec fn spec_logging(self) -> Option<Logging> {
        match self {
            LogLevel::No => None,
            LogLevel::Error => Some(
                Logging { severity: Severity::Error, all_modules: false, with_module: false },
            ),
            LogLevel::Warn => Some(
                Logging { severity: Severity::Warn, all_modules: false, with_module: false },
            ),
            LogLevel::Info => Some(
                Logging { severity: Severity::Info, all_modules: false, with_module: false },
            ),
            LogLevel::Debug => Some(
                Logging { severity: Severity::Debug, all_modules: false, with_module: false },
            ),
            LogLevel::Trace => Some(
                Logging { severity: Severity::Trace, all_modules: true, with_module: true },
            ),
        }
    }

    /// The logger that the level asks for.
    pub fn logging(self) -> (logging: Option<Logging>)
        ensures
            logging == self.spec_logging(),
    {
        let severity = match self {
            LogLevel::No => { return None; },
            LogLevel::Error => Severity::Error,
            LogLevel::Warn => Severity::Warn,
            LogLevel::Info => Severity::Info,
            LogLevel::Debug => Severity::Debug,
            LogLevel::Trace => {
                return Some(
                    Logging { severity: Severity::Trace, all_modules: true, with_module: true },
                );
            },
        };
        Some(Logging { severity, all_modules: false, with_module: false })
    }
}

impl std::str::FromStr for LogLevel {
    type Err = String;

    /// Reads the value of `--log`, as the type's own `from_str` does.
    fn from_str(s: &str) -> (level: Result<Self, String>)
        ensures
            match LogLevel::spec_from_str(s@) {
                Some(l) => level == Ok::<LogLevel, String>(l),
                None => level matches Err(why) && why@ == "invalid --log value"@,
            },
    {
        LogLevel::from_str(s)
    }
}

/// An IPv4 address with the length of its network's prefix.
#[derive(Clone, Copy, Debug, PartialEq, Eq, Structural)]
pub struct Ipv4Net {
    pub ip: Ipv4,
    pub prefix: u8,
}

impl Ipv4Net {
    /// A single host: the address with a prefix of thirty-two bits.
    pub fn host(ip: Ipv4) -> (net: Ipv4Net)
        ensures
            net == (Ipv4Net { ip, prefix: 32 }),
    {
        Ipv4Net { ip, prefix: 32 }
    }
}

/// The options of a run, as the command line gives them.
#[derive(Clone, Debug)]
pub struct Args {
    /// Name of the interface to announce on.
    pub interface: Option<String>,
    /// The address to announce.
    pub ip: Option<Ipv4Net>,
    /// The hardware address to announce with, in place of the interface's.
    pub mac: Option<Mac>,
    /// The Ethernet destination of the announcements.
    pub target: Mac,
    pub log: LogLevel,
    /// The time between two announcements.
    pub interval: Span,
    /// The time before the first announcement.
    pub delay: Span,
    /// The time between the watcher's wake-up and its first frame.
    pub watch_delay: Span,
    /// The bound of the random time added to each interval.
    pub jitter: Span,
    /// How many announcements to send; zero for no end.
    pub count: usize,
    pub watch: Watch,
    /// Whether the watcher starts with the announcer, not after its first
    /// frame.
    pub watch_immediately: bool,
    /// Whether the announcements are ARP replies.
    pub arp_reply: bool,
    /// Whether the address is left alone on the interface.
    pub unmanaged_ip: bool,
    /// Whether an address that is already on the interface ends the run.
    pub die_if_ip_exists: bool,
    /// Whether an address that was already on the interface is removed at
    /// the end.
    pub remove_pre_existing_ip: bool,
    /// Short for no delay, no jitter, one announcement and no watcher.
    pub once: bool,
    /// Whether to print the source and leave.
    pub source: bool,
    /// Whether to print the manual and leave.
    pub readme: bool,
    /// Whether to print the version and leave.
    pub version: bool,
}

/// What the program prints in place of a run.
#[derive(Clone, Copy, Debug, PartialEq, Eq, Structural)]
pub enum Info {
    Source,
    Readme,
    Version,
}

/// An interface of the host.
#[derive(Debug)]
pub struct Link {
    pub name: String,
    /// The kernel's index of the interface.
    pub index: u32,
    /// The interface's hardware address, if it has one.
    pub mac: Option<Mac>,
    pub up: bool,
    pub loopback: bool,
    pub point_to_point: bool,
}

/// Why there is no run.
#[derive(Clone, Copy, Debug, PartialEq, Eq, Structural)]
pub enum PrepError {
    /// The jitter is longer than the interval.
    JitterExceedsInterval,
    /// No interface was named.
    MissingInterface,
    /// No address was given.
    MissingIp,
    /// Neither an interface nor an address was given.
    MissingInterfaceAndIp,
    /// The host has no interface of that name.
    NoSuchInterface,
    /// The interface is the loopback.
    Loopback,
    /// The interface is a point-to-point link.
    PointToPoint,
    /// The interface is down.
    LinkDown,
    /// The interface has no hardware address, and none was given.
    NoMac,
}

/// The options after the first look: something to print, or a run to
/// prepare.
#[derive(Debug)]
pub enum Checked {
    Show(Info),
    Go(Args),
}

/// A run that passed preflight.
#[derive(Debug)]
pub struct Plan {
    /// The address to announce.
    pub ip: Ipv4Net,
    /// The place of the interface in the list that was given.
    pub link: usize,
    /// The kernel's index of the interface.
    pub if_index: u32,
    /// The hardware address to announce with.
    pub mac: Mac,
    /// Whether the run adds the address to the interface and removes it.
    pub ip_managed: bool,
    /// Whether the delay is longer than a day, which is probably a mistake.
    pub long_delay: bool,
    /// Whether the interval is longer than a day, which is probably a
    /// mistake.
    pub long_interval: bool,
    /// The options in force.
    pub args: Args,
}

/// What preflight comes to.
#[derive(Debug)]
pub enum Prep {
    Show(Info),
    Run(Plan),
}

impl PrepError {
    /// The error in words.
    pub open spec fn spec_message(self) -> Seq<char> {
        match self {
            PrepError::JitterExceedsInterval => "jitter > interval makes no sense"@,
            PrepError::MissingInterface => "missing required option: --interface"@,
            PrepError::MissingIp => "missing required option: --ip"@,
            PrepError::MissingInterfaceAndIp => "missing required options: --interface, --ip"@,
            PrepError::NoSuchInterface => "interface does not exist"@,
            PrepError::Loopback => "cannot use loopback interface"@,
            PrepError::PointToPoint => "cannot use point-to-point interface"@,
            PrepError::LinkDown => "interface must be up"@,
            PrepError::NoMac => "interface does not have a mac address"@,
        }
    }

    /// The error in words.
    pub fn message(&self) -> (text: String)
        ensures
            text@ == self.spec_message(),
    {
        match self {
            PrepError::JitterExceedsInterval => String::from_str(
                "jitter > interval makes no sense",
            ),
            PrepError::MissingInterface => String::from_str(
                "missing required option: --interface",
            ),
            PrepError::MissingIp => String::from_str("missing required option: --ip"),
            PrepError::MissingInterfaceAndIp => String::from_str(
                "missing required options: --interface, --ip",
            ),
            PrepError::NoSuchInterface => String::from_str("interface does not exist"),
            PrepError::Loopback => String::from_str("cannot use loopback interface"),
            PrepError::PointToPoint => String::from_str("cannot use point-to-point interface"),
            PrepError::LinkDown => String::from_str("interface must be up"),
            PrepError::NoMac => String::from_str("interface does not have a mac address"),
        }
    }
}

impl Args {
    /// The options of a run for which nothing was asked: broadcast
    /// announcements every ten seconds with up to one second of jitter, for
    /// ever, with a watcher that fails the run.
    pub open spec fn spec_new() -> Args {
        Args {
            interface: None,
            ip: None,
            mac: None,
            target: Mac(0xff, 0xff, 0xff, 0xff, 0xff, 0xff),
            log: LogLevel::Info,
            interval: Span { millis: 10000 },
            delay: Span { millis: 0 },
            watch_delay: Span { millis: 0 },
            jitter: Span { millis: 1000 },
            count: 0,
            watch: Watch::Fail,
            watch_immediately: false,
            arp_reply: false,
            unmanaged_ip: false,
            die_if_ip_exists: false,
            remove_pre_existing_ip: false,
            once: false,
            source: false,
            readme: false,
            version: false,
        }
    }

    /// The options of a run for which nothing was asked.
    pub fn new() -> (args: Args)
        ensures
            args == Self::spec_new(),
    {
        Args {
            interface: None,
            ip: None,
            mac: None,
            target: Mac::broadcast(),
            log: LogLevel::Info,
            interval: Span::from_secs(10),
            delay: Span::zero(),
            watch_delay: Span::zero(),
            jitter: Span::from_secs(1),
            count: 0,
            watch: Watch::Fail,
            watch_immediately: false,
            arp_reply: false,
            unmanaged_ip: false,
            die_if_ip_exists: false,
            remove_pre_existing_ip: false,
            once: false,
            source: false,
            readme: false,
            version: false,
        }
    }

    /// The options in force: `once` stands for no delay, no jitter, one
    /// announcement and no watcher.
    pub open spec fn spec_in_force(self) -> Args {
        if self.once {
            Args {
                delay: Span { millis: 0 },
                jitter: Span { millis: 0 },
                count: 1,
                watch: Watch::No,
                ..self
            }
        } else {
            self
        }
    }

    /// What the program prints in place of a run, if anything: the source
    /// before the manual, the manual before the version.
    pub open spec fn spec_info(self) -> Option<Info> {
        if self.source {
            Some(Info::Source)
        } else if self.readme {
            Some(Info::Readme)
        } else if self.version {
            Some(Info::Version)
        } else {
            None
        }
    }

    /// The first look at the options. A request to print something is
    /// answered whatever the other options say. Else `once` is applied, a
    /// jitter above the interval is turned down, and interface and address
    /// have to be there.
    pub open spec fn spec_check(self) -> Result<Checked, PrepError> {
        let args = self.spec_in_force();
        match self.spec_info() {
            Some(info) => Ok(Checked::Show(info)),
            None => if args.jitter.millis > args.interval.millis {
                Err(PrepError::JitterExceedsInterval)
            } else if args.ip is Some && args.interface is None {
                Err(PrepError::MissingInterface)
            } else if args.ip is None && args.interface is Some {
                Err(PrepError::MissingIp)
            } else if args.ip is None && args.interface is None {
                Err(PrepError::MissingInterfaceAndIp)
            } else {
                Ok(Checked::Go(args))
            },
        }
    }

    /// Applies `once`.
    pub fn in_force(self) -> (args: Args)
        ensures
            args == self.spec_in_force(),
    {
        if self.once {
            Args { delay: Span::zero(), jitter: Span::zero(), count: 1, watch: Watch::No, ..self }
        } else {
            self
        }
    }

    /// What the program prints in place of a run, if anything.
    pub fn info(&self) -> (info: Option<Info>)
        ensures
            info == self.spec_info(),
    {
        if self.source {
            Some(Info::Source)
        } else if self.readme {
            Some(Info::Readme)
        } else if self.version {
            Some(Info::Version)
        } else {
            None
        }
    }

    /// Takes the first look at the options.
    pub fn check(self) -> (checked: Result<Checked, PrepError>)
        ensures
            checked == self.spec_check(),
            checked matches Ok(Checked::Go(args)) ==> args.ready(),
    {
        match self.info() {
            Some(info) => { return Ok(Checked::Show(info)); },
            None => {},
        }
        let args = self.in_force();
        if args.jitter.exceeds(args.interval) {
            return Err(PrepError::JitterExceedsInterval);
        }
        match (&args.ip, &args.interface) {
            (Some(_), Some(_)) => Ok(Checked::Go(args)),
            (Some(_), None) => Err(PrepError::MissingInterface),
            (None, Some(_)) => Err(PrepError::MissingIp),
            (None, None) => Err(PrepError::MissingInterfaceAndIp),
        }
    }

    /// Whether the options can be run: interface and address are there, and
    /// the jitter is no longer than the interval.
    pub open spec fn ready(self) -> bool {
        &&& self.interface is Some
        &&& self.ip is Some
        &&& self.jitter.millis <= self.interval.millis
    }
}

/// Whether `at` is the place of the first interface called `name`.
pub open spec fn first_named(links: Seq<Link>, name: Seq<char>, at: int) -> bool {
    &&& 0 <= at < links.len()
    &&& links[at].name@ == name
    &&& forall|i: int| 0 <= i < at ==> (#[trigger] links[i]).name@ != name
}

/// Whether some interface is called `name`.
pub open spec fn named(links: Seq<Link>, name: Seq<char>) -> bool {
    exists|i: int| 0 <= i < links.len() && (#[trigger] links[i]).name@ == name
}

/// What is wrong with an interface, if anything: the loopback cannot be
/// used, nor a point-to-point link, nor an interface that is down; and a
/// hardware address has to come from the options or from the interface.
pub open spec fn spec_vet(link: Link, mac: Option<Mac>) -> Result<Mac, PrepError> {
    if link.loopback {
        Err(PrepError::Loopback)
    } else if link.point_to_point {
        Err(PrepError::PointToPoint)
    } else if !link.up {
        Err(PrepError::LinkDown)
    } else {
        match mac {
            Some(given) => Ok(given),
            None => match link.mac {
                Some(own) => Ok(own),
                None => Err(PrepError::NoMac),
            },
        }
    }
}

/// Vets an interface, and settles the hardware address to announce with:
/// the one from the options before the interface's own.
pub fn vet(link: &Link, mac: Option<Mac>) -> (vetted: Result<Mac, PrepError>)
    ensures
        vetted == spec_vet(*link, mac),
{
    if link.loopback {
        return Err(PrepError::Loopback);
    }
    if link.point_to_point {
        return Err(PrepError::PointToPoint);
    }
    if !link.up {
        return Err(PrepError::LinkDown);
    }
    match mac {
        Some(given) => Ok(given),
        None => match link.mac {
            Some(own) => Ok(own),
            None => Err(PrepError::NoMac),
        },
    }
}

/// Finds the first interface called `name`.
pub fn find_link(links: &Vec<Link>, name: &String) -> (found: Option<usize>)
    ensures
        found is Some <==> named(links@, name@),
        found matches Some(at) ==> first_named(links@, name@, at as int),
{
    let mut i: usize = 0;
    while i < links.len()
        invariant
            i <= links@.len(),
            forall|j: int| 0 <= j < i ==> (#[trigger] links@[j]).name@ != name@,
        decreases links@.len() - i,
    {
        if links[i].name == *name {
            return Some(i);
        }
        i += 1;
    }
    None
}

impl Plan {
    /// The plan of a run on the interface at `link`, announced with `mac`:
    /// the address is managed unless the options leave it alone, and a delay
    /// or an interval of more than a day is marked.
    pub open spec fn spec_of(args: Args, link: int, if_index: u32, mac: Mac) -> Plan {
        Plan {
            ip: args.ip->0,
            link: link as usize,
            if_index,
            mac,
            ip_managed: !args.unmanaged_ip,
            long_delay: args.delay.millis > 86400000,
            long_interval: args.interval.millis > 86400000,
            args,
        }
    }

    /// What the supervisor is told.
    pub open spec fn spec_terms(self) -> Terms {
        Terms {
            manage_ip: self.ip_managed,
            die_if_exists: self.args.die_if_ip_exists,
            remove_preexisting: self.args.remove_pre_existing_ip,
            watch: self.args.watch != Watch::No,
        }
    }

    /// The announcer of the plan, before its first frame.
    pub open spec fn spec_announcer(self) -> Announcer {
        Announcer {
            ip: self.ip.ip,
            mac: self.mac,
            target: self.args.target,
            reply: self.args.arp_reply,
            count: self.args.count,
            delay: self.args.delay,
            interval: self.args.interval,
            jitter: self.args.jitter,
            sent: 0,
            watch_pending: !self.args.watch_immediately,
        }
    }

    /// The watcher of the plan, if it has one.
    pub open spec fn spec_watcher(self) -> Option<Watcher> {
        match self.args.watch.spec_policy() {
            Some(policy) => Some(Watcher { ip: self.ip.ip, mac: self.mac, policy }),
            None => None,
        }
    }

    /// What the supervisor is told.
    pub fn terms(&self) -> (terms: Terms)
        ensures
            terms == self.spec_terms(),
    {
        Terms {
            manage_ip: self.ip_managed,
            die_if_exists: self.args.die_if_ip_exists,
            remove_preexisting: self.args.remove_pre_existing_ip,
            watch: match self.args.watch {
                Watch::No => false,
                _ => true,
            },
        }
    }

    /// The announcer of the plan, before its first frame.
    pub fn announcer(&self) -> (announcer: Announcer)
        ensures
            announcer == self.spec_announcer(),
    {
        Announcer::new(
            self.ip.ip,
            self.mac,
            self.args.target,
            self.args.arp_reply,
            self.args.count,
            self.args.delay,
            self.args.interval,
            self.args.jitter,
            self.args.watch_immediately,
        )
    }

    /// The watcher of the plan, if it has one.
    pub fn watcher(&self) -> (watcher: Option<Watcher>)
        ensures
            watcher == self.spec_watcher(),
    {
        match self.args.watch.policy() {
            Some(policy) => Some(Watcher::new(self.ip.ip, self.mac, policy)),
            None => None,
        }
    }
}

/// Preflight: looks at the options, finds the interface among the host's and
/// vets it.
///
/// A request to print something is answered before anything is checked. An
/// error names the first thing that is wrong, in this order: the jitter, the
/// options that are missing, the interface's name, its kind and state, its
/// hardware address.
pub fn prep(args: Args, links: &Vec<Link>) -> (prepared: Result<Prep, PrepError>)
    ensures
        match args.spec_check() {
            Err(e) => prepared == Err::<Prep, PrepError>(e),
            Ok(Checked::Show(info)) => prepared == Ok::<Prep, PrepError>(Prep::Show(info)),
            Ok(Checked::Go(go)) => if !named(links@, go.interface->0@) {
                prepared == Err::<Prep, PrepError>(PrepError::NoSuchInterface)
            } else {
                exists|at: int|
                    #![trigger links@[at]]
                    first_named(links@, go.interface->0@, at) && match spec_vet(
                        links@[at],
                        go.mac,
                    ) {
                        Err(e) => prepared == Err::<Prep, PrepError>(e),
                        Ok(mac) => prepared == Ok::<Prep, PrepError>(
                            Prep::Run(Plan::spec_of(go, at, links@[at].index, mac)),
                        ),
                    }
            },
        },
{
    let go = match args.check() {
        Err(e) => { return Err(e); },
        Ok(Checked::Show(info)) => { return Ok(Prep::Show(info)); },
        Ok(Checked::Go(go)) => go,
    };
    let at = match &go.interface {
        Some(name) => match find_link(links, name) {
            Some(at) => at,
            None => { return Err(PrepError::NoSuchInterface); },
        },
        None => { return Err(PrepError::MissingInterface); },
    };
    let link = &links[at];
    let mac = match vet(link, go.mac) {
        Ok(mac) => mac,
        Err(e) => { return Err(e); },
    };
    let ip = match go.ip {
        Some(ip) => ip,
        None => { return Err(PrepError::MissingIp); },
    };
    let plan = Plan {
        ip,
        link: at,
        if_index: link.index,
        mac,
        ip_managed: !go.unmanaged_ip,
        long_delay: go.delay.exceeds_a_day(),
        long_interval: go.interval.exceeds_a_day(),
        args: go,
    };
    Ok(Prep::Run(plan))
}

/// The first interface of a name is one place.
pub proof fn law_first_named_is_unique(links: Seq<Link>, name: Seq<char>, a: int, b: int)
    requires
        first_named(links, name, a),
        first_named(links, name, b),
    ensures
        a == b,
{
}

/// With `once` the run is one announcement at once and without a watcher:
/// the first frame that goes out is the last, and the supervisor starts no
/// watcher beside the announcer.
pub proof fn law_once_is_one_frame(args: Args, link: int, if_index: u32, mac: Mac, draw: u64)
    requires
        args.once,
    ensures
        ({
            let plan = Plan::spec_of(args.spec_in_force(), link, if_index, mac);
            &&& plan.spec_announcer().sent == 0
            &&& plan.spec_announcer().delay.millis == 0
            &&& plan.spec_announcer().spec_after_send(crate::announcer::SendOutcome::Sent, draw)
                == (
                Announcer { sent: 1, ..plan.spec_announcer() },
                Ok::<crate::announcer::Next, crate::announcer::AnnounceError>(
                    crate::announcer::Next::Finished,
                ),
            )
            &&& plan.spec_watcher() is None
            &&& !plan.spec_terms().watch
        }),
{
}

} // verus!
