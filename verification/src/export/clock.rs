//! The wall clock, in milliseconds of Unix time.

use vstd::prelude::*;

verus! {

/// The milliseconds of a time that lies `elapsed` (whole seconds, and
/// nanoseconds of the current second) after the Unix epoch, as far as 64 bits
/// hold them; zero for a time before the epoch.
pub open spec fn unix_ms(elapsed: Option<(u64, u32)>) -> nat {
    match elapsed {
        Some((secs, nanos)) => ((secs * 1000 + nanos / 1_000_000) % 0x1_0000_0000_0000_0000) as nat,
        None => 0,
    }
}

/// Reads the system clock by `SystemTime::elapsed` on the Unix epoch, which
/// gives the time from the epoch to now, or an error where the clock stands
/// before the epoch. Nothing is claimed of the time itself; that the
/// nanoseconds stay under one second is what `Duration::subsec_nanos`
/// documents.
#[verifier::external_body]
fn since_epoch() -> (r: Option<(u64, u32)>)
    ensures
        r matches Some(elapsed) ==> elapsed.1 < 1_000_000_000,
{
    match std::time::SystemTime::UNIX_EPOCH.elapsed() {
        Ok(elapsed) => Some((elapsed.as_secs(), elapsed.subsec_nanos())),
        Err(_) => None,
    }
}

/// The milliseconds of Unix time of a reading of the clock.
#[must_use]
pub fn unix_ms_of(elapsed: Option<(u64, u32)>) -> (r: u64)
    ensures
        r == unix_ms(elapsed),
{
    match elapsed {
        Some((secs, nanos)) => {
            let millis: u128 = secs as u128 * 1000 + (nanos / 1_000_000) as u128;
            (millis % 0x1_0000_0000_0000_0000) as u64
        },
        None => 0,
    }
}

/// The milliseconds of Unix time now.
#[must_use]
pub fn now_unix_ms() -> (r: u64)
    ensures
        exists|elapsed: Option<(u64, u32)>|
            r == #[trigger] unix_ms(elapsed) && (elapsed matches Some(time) ==> time.1
                < 1_000_000_000),
{
    let elapsed = since_epoch();
    assert(elapsed matches Some(time) ==> time.1 < 1_000_000_000);
    unix_ms_of(elapsed)
}

/// The system clock, with the readings taken of it so far. A reading is added
/// only by reading the clock.
pub struct Clock {
    readings: Ghost<Seq<Option<(u64, u32)>>>,
}

impl View for Clock {
    type V = Seq<Option<(u64, u32)>>;

    closed spec fn view(&self) -> Seq<Option<(u64, u32)>> {
        self.readings@
    }
}

/// Whether a clock, between two states, was read once and gave `now`.
pub open spec fn read_once(
    pre: Seq<Option<(u64, u32)>>,
    post: Seq<Option<(u64, u32)>>,
    now: u64,
) -> bool {
    &&& post.len() == pre.len() + 1
    &&& post.drop_last() == pre
    &&& post.last() matches Some(time) ==> time.1 < 1_000_000_000
    &&& now == unix_ms(post.last())
}

impl Clock {
    /// The clock, not read yet.
    #[must_use]
    pub fn new() -> (r: Self)
        ensures
            r@.len() == 0,
    {
        Clock { readings: Ghost(Seq::empty()) }
    }

    /// Reads the clock: the milliseconds of Unix time now.
    pub fn read_unix_ms(&mut self) -> (r: u64)
        ensures
            read_once(old(self)@, final(self)@, r),
    {
        let elapsed = since_epoch();
        self.readings = Ghost(self.readings@.push(elapsed));
        assert(self@.drop_last() =~= old(self)@);
        unix_ms_of(elapsed)
    }
}

/// The milliseconds of a reading are all the whole milliseconds since the
/// epoch, not only those of the current second: counted back to nanoseconds
/// they fall short of the reading by less than a millisecond. That holds as
/// long as 64 bits hold them; a time before the epoch gives zero.
pub proof fn law_unix_ms_counts_from_the_epoch(secs: u64, nanos: u32)
    requires
        nanos < 1_000_000_000,
    ensures
        unix_ms(None) == 0,
        secs * 1000 + 999 <= u64::MAX ==> {
            &&& unix_ms(Some((secs, nanos))) * 1_000_000 <= secs * 1_000_000_000 + nanos
            &&& secs * 1_000_000_000 + nanos < (unix_ms(Some((secs, nanos))) + 1) * 1_000_000
        },
        unix_ms(Some((secs, nanos))) == (secs * 1000 + nanos as int / 1_000_000)
            % 0x1_0000_0000_0000_0000,
{
}

} // verus!
