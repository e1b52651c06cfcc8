use vstd::prelude::*;
use vstd::string::StrSliceExecFns;

verus! {

/// True of an ASCII decimal digit.
pub open spec fn is_dec_digit(c: char) -> bool {
    48 <= c as int && c as int <= 57
}

/// Numeric value of a decimal digit character.
pub open spec fn dec_digit_val(c: char) -> int {
    c as int - 48
}

/// True when every character of `s` is a decimal digit.
pub open spec fn dec_digits(s: Seq<char>) -> bool {
    forall|i: int| 0 <= i < s.len() ==> is_dec_digit(#[trigger] s[i])
}

/// The number denoted by a sequence of decimal digits, most significant first.
pub open spec fn dec_value(s: Seq<char>) -> int
    decreases s.len(),
{
    if s.len() == 0 {
        0
    } else {
        dec_value(s.drop_last()) * 10 + dec_digit_val(s.last())
    }
}

/// What a string denotes as an unsigned 64-bit decimal number: a non-empty,
/// all-digit string whose value fits in a `u64`; anything else is rejected.
pub open spec fn parsed_u64(s: Seq<char>) -> Option<u64> {
    if s.len() > 0 && dec_digits(s) && dec_value(s) <= u64::MAX {
        Some(dec_value(s) as u64)
    } else {
        None
    }
}

proof fn lemma_dec_value_nonneg(s: Seq<char>)
    requires
        dec_digits(s),
    ensures
        dec_value(s) >= 0,
    decreases s.len(),
{
    if s.len() > 0 {
        assert(dec_digits(s.drop_last()));
        lemma_dec_value_nonneg(s.drop_last());
    }
}

proof fn lemma_dec_value_take_succ(s: Seq<char>, i: int)
    requires
        0 <= i < s.len(),
    ensures
        dec_value(s.take(i + 1)) == dec_value(s.take(i)) * 10 + dec_digit_val(s[i]),
{
    assert(s.take(i + 1).drop_last() =~= s.take(i));
    assert(s.take(i + 1).last() == s[i]);
}

proof fn lemma_dec_value_take_le(s: Seq<char>, i: int)
    requires
        dec_digits(s),
        0 <= i <= s.len(),
    ensures
        dec_value(s.take(i)) <= dec_value(s),
    decreases s.len() - i,
{
    if i < s.len() {
        lemma_dec_value_take_succ(s, i);
        assert(dec_digits(s.take(i)));
        lemma_dec_value_nonneg(s.take(i));
        lemma_dec_value_take_le(s, i + 1);
    } else {
        assert(s.take(i) =~= s);
    }
}

/// Parses a non-empty, all-digit decimal string into a `u64`; rejects any
/// other string, and any value that does not fit.
pub fn parse_u64(s: &str) -> (r: Option<u64>)
    ensures
        r == parsed_u64(s@),
{
    let n: usize = s.unicode_len();
    if n == 0 {
        return None;
    }
    let mut acc: u64 = 0;
    let mut i: usize = 0;
    while i < n
        invariant
            0 <= i <= n,
            n == s@.len(),
            dec_digits(s@.take(i as int)),
            acc == dec_value(s@.take(i as int)),
        decreases n - i,
    {
        let c: char = s.get_char(i);
        let cv: u32 = c as u32;
        if cv < 48 || cv > 57 {
            proof {
                assert(!is_dec_digit(s@[i as int]));
            }
            return None;
        }
        let d: u64 = (cv - 48) as u64;
        let next: Option<u64> = match acc.checked_mul(10) {
            Some(m) => m.checked_add(d),
            None => None,
        };
        match next {
            Some(v) => {
                proof {
                    lemma_dec_value_take_succ(s@, i as int);
                    assert(dec_digits(s@.take(i as int + 1)));
                }
                acc = v;
                i = i + 1;
            }
            None => {
                proof {
                    lemma_dec_value_take_succ(s@, i as int);
                    if dec_digits(s@) {
                        lemma_dec_value_nonneg(s@.take(i as int));
                        lemma_dec_value_take_le(s@, i as int + 1);
                    }
                }
                return None;
            }
        }
    }
    proof {
        assert(s@.take(n as int) =~= s@);
    }
    Some(acc)
}

/// The monitor's settings, already read in from outside: the store to talk
/// to, the keys to watch, and the probe and polling parameters.
pub struct Config {
    /// Connection string for the shared key-value store.
    pub redis_url: String,
    /// First tracked key.
    pub jake_key: String,
    /// Second tracked key.
    pub becca_key: String,
    /// Command used to probe reachability.
    pub ping_cmd: String,
    /// Probe timeout in seconds, as the decimal string it was configured as.
    pub ping_timeout: String,
    /// Seconds between poll cycles.
    pub poll_period: u64,
    /// Threshold of consecutive misses tolerated before cleanup.
    pub max_misses: u64,
}

impl Config {
    /// The parsed probe timeout, in seconds.
    pub open spec fn timeout_secs(&self) -> int
        recommends
            parsed_u64(self.ping_timeout@) is Some,
    {
        parsed_u64(self.ping_timeout@)->0 as int
    }

    /// The time-to-live given to the miss counter: one poll period, plus the
    /// probe's own timeout, plus one second.
    pub open spec fn miss_ttl_spec(&self) -> int {
        self.poll_period + self.timeout_secs() + 1
    }

    /// A usable configuration: the probe timeout parses, the counter's
    /// time-to-live fits in a `u64`, and the threshold leaves room for the
    /// counter to pass it by one.
    pub open spec fn wf(&self) -> bool {
        &&& parsed_u64(self.ping_timeout@) is Some
        &&& self.miss_ttl_spec() <= u64::MAX
        &&& self.max_misses < u64::MAX
    }

    /// The probe timeout as an integer number of seconds.
    pub fn ping_timeout_int(&self) -> (r: u64)
        requires
            parsed_u64(self.ping_timeout@) is Some,
        ensures
            parsed_u64(self.ping_timeout@) == Some(r),
    {
        parse_u64(self.ping_timeout.as_str()).unwrap()
    }

    /// The time-to-live, in seconds, set on the miss counter at each bump.
    pub fn miss_ttl(&self) -> (r: u64)
        requires
            self.wf(),
        ensures
            r == self.miss_ttl_spec(),
    {
        self.poll_period + self.ping_timeout_int() + 1
    }

    /// Runtime test of `wf`, for callers handed a configuration from outside.
    pub fn is_well_formed(&self) -> (b: bool)
        ensures
            b == self.wf(),
    {
        match parse_u64(self.ping_timeout.as_str()) {
            None => false,
            Some(tm) => {
                let ttl: Option<u64> = match self.poll_period.checked_add(tm) {
                    Some(x) => x.checked_add(1),
                    None => None,
                };
                ttl.is_some() && self.max_misses < u64::MAX
            }
        }
    }
}

} // verus!
