//! The node's configuration.

use vstd::prelude::*;
use vstd::string::*;

verus! {

/// How much is logged.
#[derive(Debug, Clone, Copy, PartialEq, Eq, Structural)]
pub enum LogLevel {
    Silent,
    Error,
    Warning,
    Info,
    Debug,
    Verbose,
}

/// The node's configuration.
#[derive(Debug)]
pub struct Config {
    /// The scheduler's host.
    pub addr: String,
    /// The scheduler's port.
    pub port: u16,
    /// The name by which the scheduler knows this node.
    pub node_id: String,
    /// The CPU to run on; a negative number leaves the affinity as it is.
    pub cpu: i32,
    /// The priority to run at; a negative number leaves policy and priority as they are.
    pub prio: i32,
    /// How often to try again while the scheduler has no workload.
    pub max_retries: u32,
    /// Whether to start together with the other nodes.
    pub enable_sync: bool,
    pub enable_plot: bool,
    pub enable_apex: bool,
    pub log_level: LogLevel,
}

impl Default for Config {
    /// No scheduler is named, nothing is pinned or prioritised, and nothing is switched on.
    fn default() -> (config: Self)
        ensures
            config.addr@ == Seq::<char>::empty(),
            config.port == 0,
            config.node_id@ == Seq::<char>::empty(),
            config.cpu == -1,
            config.prio == -1,
            config.max_retries == 0,
            !config.enable_sync,
            !config.enable_plot,
            !config.enable_apex,
            config.log_level == LogLevel::Info,
    {
        Config {
            addr: String::new(),
            port: 0,
            node_id: String::new(),
            cpu: -1,
            prio: -1,
            max_retries: 0,
            enable_sync: false,
            enable_plot: false,
            enable_apex: false,
            log_level: LogLevel::Info,
        }
    }
}

impl Clone for Config {
    fn clone(&self) -> (copy: Self)
        ensures
            copy == *self,
    {
        Config {
            addr: self.addr.clone(),
            port: self.port,
            node_id: self.node_id.clone(),
            cpu: self.cpu,
            prio: self.prio,
            max_retries: self.max_retries,
            enable_sync: self.enable_sync,
            enable_plot: self.enable_plot,
            enable_apex: self.enable_apex,
            log_level: self.log_level,
        }
    }
}

/// The character of a decimal digit.
pub open spec fn digit_char(digit: nat) -> char {
    ('0' as nat + digit) as char
}

/// A number in decimal digits, without leading zeros.
pub open spec fn decimal(n: nat) -> Seq<char>
    decreases n,
{
    if n < 10 {
        seq![digit_char(n)]
    } else {
        decimal(n / 10).push(digit_char(n % 10))
    }
}

/// A decimal digit as a string.
fn digit_str(digit: u16) -> (text: &'static str)
    requires
        digit < 10,
    ensures
        text@ == seq![digit_char(digit as nat)],
{
    proof {
        reveal_strlit("0");
        reveal_strlit("1");
        reveal_strlit("2");
        reveal_strlit("3");
        reveal_strlit("4");
        reveal_strlit("5");
        reveal_strlit("6");
        reveal_strlit("7");
        reveal_strlit("8");
        reveal_strlit("9");
    }
    let text = match digit {
        0 => "0",
        1 => "1",
        2 => "2",
        3 => "3",
        4 => "4",
        5 => "5",
        6 => "6",
        7 => "7",
        8 => "8",
        _ => "9",
    };
    assert(text@ =~= seq![digit_char(digit as nat)]);
    text
}

/// A number in decimal digits.
fn decimal_string(n: u16) -> (text: String)
    ensures
        text@ == decimal(n as nat),
    decreases n,
{
    if n < 10 {
        digit_str(n).to_owned()
    } else {
        let text = decimal_string(n / 10).concat(digit_str(n % 10));
        assert(text@ =~= decimal(n as nat));
        text
    }
}

impl Config {
    /// The scheduler's address, as `http://host:port`.
    pub open spec fn spec_endpoint(self) -> Seq<char> {
        "http://"@ + self.addr@ + ":"@ + decimal(self.port as nat)
    }

    /// The scheduler's address, as `http://host:port`.
    pub fn endpoint(&self) -> (url: String)
        ensures
            url@ == self.spec_endpoint(),
    {
        "http://".to_owned().concat(self.addr.as_str()).concat(":").concat(
            decimal_string(self.port).as_str(),
        )
    }
}

/// The number that a text of decimal digits stands for.
pub open spec fn number_of(text: Seq<char>) -> int
    decreases text.len(),
{
    if text.len() == 0 {
        0
    } else {
        10 * number_of(text.drop_last()) + (text.last() as int - 48)
    }
}

/// A number in decimal digits leads back to the number. It is made of the digits from 0 to 9
/// alone, and does not begin with 0 unless it is 0.
pub proof fn law_digits_lead_back_to_the_number(n: nat)
    ensures
        number_of(decimal(n)) == n,
        decimal(n).len() > 0,
        n > 0 ==> decimal(n)[0] as int != 48,
        forall|i: int| 0 <= i < decimal(n).len() ==> 48 <= (#[trigger] decimal(n)[i]) as int <= 57,
    decreases n,
{
    assert(digit_char(n % 10) as int == 48 + n % 10);
    assert(decimal(n).last() == digit_char(n % 10));
    if n >= 10 {
        law_digits_lead_back_to_the_number(n / 10);
        assert(decimal(n).drop_last() =~= decimal(n / 10));
        assert(decimal(n)[0] == decimal(n / 10)[0]);
        assert forall|i: int| 0 <= i < decimal(n).len() implies 48 <= (
        #[trigger] decimal(n)[i]) as int <= 57 by {
            if i < decimal(n / 10).len() {
                assert(decimal(n)[i] == decimal(n / 10)[i]);
            }
        }
    } else {
        assert(decimal(n).drop_last() =~= Seq::<char>::empty());
        assert(number_of(decimal(n).drop_last()) == 0);
    }
}

/// The scheduler's address is the host between `http://` and a colon, followed by the port,
/// and nothing else of the configuration is in it.
pub proof fn law_address_is_host_and_port(config: Config, other: Config)
    ensures
        config.spec_endpoint() == "http://"@ + config.addr@ + ":"@ + decimal(config.port as nat),
        config.addr@ == other.addr@ && config.port == other.port ==> config.spec_endpoint()
            == other.spec_endpoint(),
        config.addr@ == other.addr@ && config.port != other.port ==> config.spec_endpoint()
            != other.spec_endpoint(),
{
    if config.addr@ == other.addr@ && config.spec_endpoint() == other.spec_endpoint() {
        let head = "http://"@ + config.addr@ + ":"@;
        let here = decimal(config.port as nat);
        let there = decimal(other.port as nat);
        assert(here =~= (head + here).skip(head.len() as int));
        assert(there =~= (head + there).skip(head.len() as int));
        law_digits_lead_back_to_the_number(config.port as nat);
        law_digits_lead_back_to_the_number(other.port as nat);
    }
}

} // verus!
