//! One reconciliation tick: the state each valve should be driven to, and the actuator
//! request that carries it.

use crate::error::Error;
use crate::registry::ControllerConfig;
use crate::time::{DateTime, TimeOfDay, Weekday};
use crate::valve::{Valve, ValveNumber, ValveStatus};
use vstd::prelude::*;

verus! {

/// The decimal digit `d`.
pub open spec fn digit_char(d: nat) -> char {
    seq!['0', '1', '2', '3', '4', '5', '6', '7', '8', '9'][d as int]
}

/// The decimal text of `n`, without leading zeros.
pub open spec fn decimal_text(n: nat) -> Seq<char>
    decreases n,
{
    if n < 10 {
        seq![digit_char(n)]
    } else {
        decimal_text(n / 10).push(digit_char(n % 10))
    }
}

/// The text of the URL that `input` resolves to against the base URL `base`; `None` where
/// `base` is no URL or the two do not combine into one.
pub uninterp spec fn url_join(base: Seq<char>, input: Seq<char>) -> Option<Seq<char>>;

/// Relies on `u8`'s `Display` (through `ToString`), which writes the number in decimal.
#[verifier::external_body]
fn decimal(n: u8) -> (r: String)
    ensures
        r@ == decimal_text(n as nat),
{
    n.to_string()
}

/// Relies on `Url::parse` (the `url` crate's, as reqwest exports it) to read `base`, and on
/// `Url::join` to resolve `input` against it; the result is written back as text.
#[verifier::external_body]
fn join_url(base: &str, input: &str) -> (r: Option<String>)
    ensures
        url_join(base@, input@) == (match r {
            Some(s) => Some(s@),
            None => None::<Seq<char>>,
        }),
{
    match reqwest::Url::parse(base) {
        Ok(url) => match url.join(input) {
            Ok(joined) => Some(joined.to_string()),
            Err(_) => None,
        },
        Err(_) => None,
    }
}

/// The path under which the actuator serves its valves.
pub open spec fn valves_path() -> Seq<char> {
    seq!['/', 'v', 'a', 'l', 'v', 'e', 's', '/']
}

/// The actuator URL of the valve numbered `n`, for the actuator at `base`.
pub open spec fn valve_url(base: Seq<char>, n: ValveNumber) -> Option<Seq<char>> {
    match url_join(base, valves_path()) {
        Some(dir) => url_join(dir, decimal_text(n as nat)),
        None => None,
    }
}

/// The request body that drives a valve to `status`.
pub open spec fn body_text(status: ValveStatus) -> Seq<char> {
    match status {
        ValveStatus::Open => seq!['o', 'p', 'e', 'n'],
        ValveStatus::Close => seq!['c', 'l', 'o', 's', 'e', 'd'],
    }
}

/// One request to the actuator: put `status` for the valve numbered `valve_number` at `url`.
#[derive(Debug)]
pub struct Actuation {
    pub valve_number: ValveNumber,
    pub url: String,
    pub status: ValveStatus,
}

impl Actuation {
    /// The request body: `open` or `closed`.
    pub fn body(&self) -> (r: &'static str)
        ensures
            r@ == body_text(self.status),
    {
        proof {
            reveal_strlit("open");
            reveal_strlit("closed");
        }
        match self.status {
            ValveStatus::Open => "open",
            ValveStatus::Close => "closed",
        }
    }
}

/// `r` is the request for `valve` against the actuator at `base`, judged on day `day` at
/// `time`; or, where no URL can be formed, the address error.
pub open spec fn actuation_for(
    r: Result<Actuation, Error>,
    base: Seq<char>,
    valve: Valve,
    day: Weekday,
    time: TimeOfDay,
) -> bool {
    match valve_url(base, valve.valve_number) {
        Some(u) => r matches Ok(a) && a.valve_number == valve.valve_number && a.url@ == u
            && a.status == valve.status_spec(day, time),
        None => r == Err::<Actuation, Error>(Error::InvalidAddress),
    }
}

/// The actuator URL of the valve numbered `valve_number`, for the actuator at `address`.
pub fn valve_address(address: &str, valve_number: ValveNumber) -> (r: Option<String>)
    ensures
        valve_url(address@, valve_number) == (match r {
            Some(s) => Some(s@),
            None => None::<Seq<char>>,
        }),
{
    proof {
        reveal_strlit("/valves/");
        assert("/valves/"@ =~= valves_path());
    }
    match join_url(address, "/valves/") {
        Some(dir) => join_url(dir.as_str(), decimal(valve_number).as_str()),
        None => None,
    }
}

/// The request that drives `valve` to the state it resolves to on day `day` at `time`.
pub fn valve_actuation(address: &str, valve: &Valve, day: Weekday, time: &TimeOfDay) -> (r:
    Result<Actuation, Error>)
    ensures
        actuation_for(r, address@, *valve, day, *time),
{
    match valve_address(address, valve.valve_number) {
        Some(url) => Ok(
            Actuation {
                valve_number: valve.valve_number,
                url,
                status: valve.status_at(day, time),
            },
        ),
        None => Err(Error::InvalidAddress),
    }
}

/// One tick: for each valve, in registry order, the request that drives it to the state it
/// resolves to at `now`; every valve is judged at that same instant. A valve for which no
/// request can be formed gets its error in its place and the others go on.
pub fn reconcile(config: &ControllerConfig, now: DateTime) -> (r: Vec<Result<Actuation, Error>>)
    ensures
        r@.len() == config@.len(),
        forall|i: int|
            0 <= i < r@.len() ==> actuation_for(
                #[trigger] r@[i],
                config.address_spec(),
                config@[i],
                now.weekday_spec(),
                now.time_spec(),
            ),
{
    let day = now.weekday();
    let time = now.time();
    let address = config.address().as_str();
    let mut out: Vec<Result<Actuation, Error>> = Vec::new();
    let n = config.len();
    let mut i: usize = 0;
    while i < n
        invariant
            n == config@.len(),
            0 <= i <= n,
            out@.len() == i,
            address@ == config.address_spec(),
            day == now.weekday_spec(),
            time == now.time_spec(),
            forall|k: int|
                0 <= k < i ==> actuation_for(
                    #[trigger] out@[k],
                    config.address_spec(),
                    config@[k],
                    day,
                    time,
                ),
        decreases n - i,
    {
        let valve = config.at(i);
        out.push(valve_actuation(address, valve, day, &time));
        i = i + 1;
    }
    out
}

} // verus!
