//! Default configuration values and the commented configuration file that is
//! written when none exists.
use vstd::prelude::*;

verus! {

/// Seconds of inactivity after which the user is considered idle.
pub fn idle_timeout_seconds() -> (r: u32)
    ensures
        r == 180,
{
    180
}

/// Seconds between two idle polls.
pub fn poll_time_idle_seconds() -> (r: u32)
    ensures
        r == 5,
{
    5
}

/// Seconds between two active-window polls.
pub fn poll_time_window_seconds() -> (r: u32)
    ensures
        r == 1,
{
    1
}

/// Port of the event server.
pub fn port() -> (r: u16)
    ensures
        r == 5600,
{
    5600
}

pub open spec fn default_host() -> Seq<char> {
    seq!['1', '2', '7', '.', '0', '.', '0', '.', '1']
}

/// Host of the event server.
pub fn host() -> (r: String)
    ensures
        r@ == default_host(),
{
    let r = String::from_str("127.0.0.1");
    proof {
        reveal_strlit("127.0.0.1");
    }
    r
}

pub open spec fn digit_char(d: nat) -> char {
    if d == 0 { '0' }
    else if d == 1 { '1' }
    else if d == 2 { '2' }
    else if d == 3 { '3' }
    else if d == 4 { '4' }
    else if d == 5 { '5' }
    else if d == 6 { '6' }
    else if d == 7 { '7' }
    else if d == 8 { '8' }
    else { '9' }
}

/// The decimal digits of `n`, most significant first, without leading zeros.
pub open spec fn decimal(n: nat) -> Seq<char>
    decreases n,
{
    if n < 10 {
        seq![digit_char(n)]
    } else {
        decimal(n / 10).push(digit_char(n % 10))
    }
}

fn digit_str(d: u64) -> (r: &'static str)
    requires
        d < 10,
    ensures
        r@ == seq![digit_char(d as nat)],
{
    proof {
        reveal_strlit("0");
        reveal_strlit("1");
        reveal_strlit("2");
        reveal_strlit("3");
        reveal_strlit("4");
        reveal_strlit("5");
        reveal_strlit("6");
        reveal_strlit("7");
        reveal_strlit("8");
        reveal_strlit("9");
    }
    match d {
        0 => "0",
        1 => "1",
        2 => "2",
        3 => "3",
        4 => "4",
        5 => "5",
        6 => "6",
        7 => "7",
        8 => "8",
        _ => "9",
    }
}

/// Writes `n` in decimal.
pub fn decimal_string(n: u64) -> (r: String)
    ensures
        r@ == decimal(n as nat),
    decreases n,
{
    if n < 10 {
        String::from_str(digit_str(n))
    } else {
        let mut s = decimal_string(n / 10);
        s.append(digit_str(n % 10));
        s
    }
}

pub const CONFIG_SERVER: &'static str = "# The commented values are the defaults on the file creation\n[server]\n# port = ";

pub const CONFIG_HOST: &'static str = "\n# host = \"";

pub const CONFIG_IDLE_TIMEOUT: &'static str = "\"\n\n[awatcher]\n# idle-timeout-seconds=";

pub const CONFIG_POLL_IDLE: &'static str = "\n# poll-time-idle-seconds=";

pub const CONFIG_POLL_WINDOW: &'static str = "\n# poll-time-window-seconds=";

pub const CONFIG_FILTERS: &'static str = "\n\n# Add as many filters as needed. The first matching filter stops the replacement.\n# There should be at least 1 match field, and at least 1 replace field.\n# Matches are case sensitive regular expressions between implicit ^ and $, e.g.\n# - \".\" matches 1 any character\n# - \".*\" matches any number of any characters\n# - \".+\" matches 1 or more any characters.\n# - \"word\" is an exact match.\n# [[awatcher.filters]]\n# match-app-id = \"navigator\"\n# match-title = \".*Firefox.*\"\n# replace-app-id = \"firefox\"\n# replace-title = \"Unknown\"\n\n# Use captures for app-id or title in the regular form to use parts of the original text\n# (parentheses for a capture, $1, $2 etc for each capture).\n# The example rule removes the changed file indicator from the title in Visual Studio Code:\n# \"● notes.md - awatcher - Visual Studio Code\" to \"notes.md - awatcher - Visual Studio Code\".\n# [[awatcher.filters]]\n# match-app-id = \"code\"\n# match-title = \"● (.*)\"\n# replace-title = \"$1\"\n";

/// The configuration file written on first start: every value commented out
/// and shown with its default, followed by examples of filter rules.
pub open spec fn default_config_text() -> Seq<char> {
    CONFIG_SERVER@ + decimal(5600) + CONFIG_HOST@ + default_host() + CONFIG_IDLE_TIMEOUT@
        + decimal(180) + CONFIG_POLL_IDLE@ + decimal(5) + CONFIG_POLL_WINDOW@ + decimal(1)
        + CONFIG_FILTERS@
}

/// The text of a fresh configuration file, with the defaults filled in.
pub fn default_config() -> (r: String)
    ensures
        r@ == default_config_text(),
{
    let mut r = String::from_str(CONFIG_SERVER);
    let p = decimal_string(port() as u64);
    r.append(p.as_str());
    r.append(CONFIG_HOST);
    let h = host();
    r.append(h.as_str());
    r.append(CONFIG_IDLE_TIMEOUT);
    let t = decimal_string(idle_timeout_seconds() as u64);
    r.append(t.as_str());
    r.append(CONFIG_POLL_IDLE);
    let i = decimal_string(poll_time_idle_seconds() as u64);
    r.append(i.as_str());
    r.append(CONFIG_POLL_WINDOW);
    let w = decimal_string(poll_time_window_seconds() as u64);
    r.append(w.as_str());
    r.append(CONFIG_FILTERS);
    r
}

} // verus!
