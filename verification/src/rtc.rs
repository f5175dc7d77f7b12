//! The real-time clock of MBC3 cartridges: seconds, minutes, hours and a
//! nine-bit day counter with a halt bit and a day-counter carry.
use vstd::prelude::*;

verus! {

/// A reading of the system clock: whole seconds since the Unix epoch and the
/// nanoseconds past that second (more than 999,999,999 during a leap second).
pub struct ClockReading {
    pub secs: i64,
    pub nanos: u32,
}

/// The whole seconds from one clock reading to another, as chrono counts them
/// (`signed_duration_since(..).num_seconds()`), or `None` where chrono cannot
/// place one of the readings on its time line.
pub uninterp spec fn whole_seconds_between(from_secs: i64, from_nanos: u32, to_secs: i64, to_nanos: u32) -> Option<i64>;

/// Reads the system clock: `std::time::SystemTime::now()` and its
/// `duration_since(UNIX_EPOCH)`, then `chrono::DateTime::from_timestamp`,
/// whose timestamp and sub-second nanoseconds make the reading. This is the
/// path that chrono's own `Utc::now()` takes, with each step that could fail
/// (a clock set before 1970, seconds beyond `i64`, a time outside chrono's
/// range) giving `None` where chrono would panic; the time zone plays no
/// part, as only differences of readings are used. The reading depends on
/// the time of the call; the contract states only chrono's bound on the
/// nanoseconds, which are below two seconds' worth.
#[verifier::external_body]
fn clock_now() -> (r: Option<ClockReading>)
    ensures
        r matches Some(c) ==> c.nanos < 2_000_000_000,
{
    let since = std::time::SystemTime::now().duration_since(std::time::UNIX_EPOCH).ok()?;
    let secs = i64::try_from(since.as_secs()).ok()?;
    let now = chrono::DateTime::from_timestamp(secs, since.subsec_nanos())?;
    Some(ClockReading { secs: now.timestamp(), nanos: now.timestamp_subsec_nanos() })
}

/// Whole seconds from `from` to `to`, computed by chrono: both readings are
/// rebuilt with `DateTime::from_timestamp` (which gives `None` for a reading
/// out of chrono's range), and the result is `to.signed_duration_since(from)
/// .num_seconds()`. The contract names that result `whole_seconds_between`.
#[verifier::external_body]
fn seconds_between(from: &ClockReading, to: &ClockReading) -> (r: Option<i64>)
    ensures
        r == whole_seconds_between(from.secs, from.nanos, to.secs, to.nanos),
{
    let start = chrono::DateTime::from_timestamp(from.secs, from.nanos)?;
    let end = chrono::DateTime::from_timestamp(to.secs, to.nanos)?;
    Some(end.signed_duration_since(start).num_seconds())
}

/// The clock of an MBC3 cartridge.
pub struct Rtc {
    pub halt: bool,
    pub seconds: u8,
    pub minutes: u8,
    pub hours: u8,
    pub days: u16,
    pub carry: bool,
    /// The clock reading of the last update; `None` where the clock could
    /// not be read.
    pub last_update: Option<ClockReading>,
}

/// Seconds that count as elapsed for a chrono difference: negative
/// differences, and readings chrono cannot place, count as none.
pub open spec fn elapsed_of(diff: Option<i64>) -> u64 {
    match diff {
        Some(s) => if s > 0 {
            s as u64
        } else {
            0
        },
        None => 0,
    }
}

/// Seconds that count as elapsed from one update to the next: none where
/// either reading is missing.
pub open spec fn elapsed_between(from: Option<ClockReading>, to: Option<ClockReading>) -> u64 {
    match (from, to) {
        (Some(a), Some(b)) => elapsed_of(whole_seconds_between(a.secs, a.nanos, b.secs, b.nanos)),
        _ => 0,
    }
}

impl Rtc {
    /// The counters as a number of seconds.
    pub open spec fn total_seconds(self) -> int {
        self.seconds + self.minutes * 60 + self.hours * 3600 + self.days * 86400
    }

    /// The counters after `elapsed` more seconds: the total is split again
    /// into seconds, minutes, hours and days modulo 512; reaching day 512
    /// sets the carry, which then stays set.
    pub open spec fn advanced(self, elapsed: u64) -> Rtc {
        let current = self.total_seconds() + elapsed;
        let day = current / 86400;
        let day_seconds = current % 86400;
        Rtc {
            days: (day % 512) as u16,
            carry: self.carry || day >= 512,
            hours: (day_seconds / 3600) as u8,
            minutes: ((day_seconds % 3600) / 60) as u8,
            seconds: (day_seconds % 60) as u8,
            ..self
        }
    }

    /// The clock brought up to the reading `now`: when not halted, the
    /// counters advance by the whole seconds since the last update; in any
    /// case `now` becomes the last update.
    pub open spec fn updated(self, now: Option<ClockReading>) -> Rtc {
        let counted = if self.halt {
            self
        } else {
            self.advanced(elapsed_between(self.last_update, now))
        };
        Rtc { last_update: now, ..counted }
    }

    /// The five MBC3 clock registers: seconds, minutes, hours, low eight
    /// bits of the day counter, and the control byte (bit 0: day bit 8,
    /// bit 6: halt, bit 7: carry).
    pub open spec fn registers(self) -> Seq<u8> {
        seq![
            self.seconds,
            self.minutes,
            self.hours,
            self.days as u8,
            ((((self.days >> 8u16) as u8) & 0x01) | (if self.halt { 0x40u8 } else { 0u8 }) | (
            if self.carry {
                0x80u8
            } else {
                0u8
            })) as u8,
        ]
    }

    /// The clock after a write of `value` to register `index` (0 to 4);
    /// other indexes change nothing.
    pub open spec fn with_register(self, index: usize, value: u8) -> Rtc {
        if index == 0 {
            Rtc { seconds: value % 60, ..self }
        } else if index == 1 {
            Rtc { minutes: value % 60, ..self }
        } else if index == 2 {
            Rtc { hours: value % 24, ..self }
        } else if index == 3 {
            Rtc { days: ((self.days & 0x100) | (value as u16)) as u16, ..self }
        } else if index == 4 {
            Rtc {
                days: ((self.days & 0xFF) | (((value as u16) & 0x01) << 8u16)) as u16,
                halt: value & 0x40 != 0,
                carry: value & 0x80 != 0,
                ..self
            }
        } else {
            self
        }
    }

    /// Counters in their ranges: seconds and minutes below 60, hours below
    /// 24, days below 512.
    pub open spec fn wf(self) -> bool {
        self.seconds < 60 && self.minutes < 60 && self.hours < 24 && self.days < 512
    }

    /// A clock at zero, not halted, last updated now.
    pub fn new() -> (r: Self)
        ensures
            r.wf(),
            r == (Rtc {
                halt: false,
                seconds: 0,
                minutes: 0,
                hours: 0,
                days: 0,
                carry: false,
                last_update: r.last_update,
            }),
    {
        Self {
            halt: false,
            seconds: 0,
            minutes: 0,
            hours: 0,
            days: 0,
            carry: false,
            last_update: clock_now(),
        }
    }

    /// Advances the counters by `elapsed` seconds.
    pub fn advance(&mut self, elapsed: u64)
        ensures
            *final(self) == old(self).advanced(elapsed),
    {
        let current = self.seconds as u128 + self.minutes as u128 * 60 + self.hours as u128 * 3600
            + self.days as u128 * 86400 + elapsed as u128;
        let day = current / 86400;
        self.days = (day % 512) as u16;
        self.carry = self.carry || day >= 512;
        let day_seconds = current % 86400;
        self.hours = (day_seconds / 3600) as u8;
        self.minutes = ((day_seconds % 3600) / 60) as u8;
        self.seconds = (day_seconds % 60) as u8;
    }

    /// Brings the clock up to the reading `now` (`None` where the clock
    /// could not be read, which counts as no time elapsed).
    pub fn update_at(&mut self, now: Option<ClockReading>)
        ensures
            *final(self) == old(self).updated(now),
    {
        if !self.halt {
            let elapsed: u64 = match &self.last_update {
                Some(from) => match &now {
                    Some(to) => match seconds_between(from, to) {
                        Some(s) => if s > 0 {
                            s as u64
                        } else {
                            0
                        },
                        None => 0,
                    },
                    None => 0,
                },
                None => 0,
            };
            self.advance(elapsed);
        }
        self.last_update = now;
    }

    /// Brings the clock up to the present time.
    fn update(&mut self)
        ensures
            exists|now: Option<ClockReading>| *final(self) == old(self).updated(now),
    {
        let now = clock_now();
        self.update_at(now);
    }

    /// Brings the clock up to the present time and gives its five registers.
    /// A clock whose counters were in range keeps them in range, and so
    /// gives seconds and minutes below 60 and hours below 24.
    pub fn get_mbc3_registers(&mut self) -> (r: [u8; 5])
        ensures
            exists|now: Option<ClockReading>| *final(self) == old(self).updated(now),
            r@ == final(self).registers(),
            old(self).wf() ==> final(self).wf() && r[0] < 60 && r[1] < 60 && r[2] < 24,
    {
        self.update();
        proof {
            let now = choose|now: Option<ClockReading>| *self == old(self).updated(now);
            crate::laws::lemma_rtc_counters_in_range(*old(self), now, 0, 0);
        }
        let control: u8 = ((self.days >> 8) as u8 & 0x01) | if self.halt {
            0x40
        } else {
            0
        } | if self.carry {
            0x80
        } else {
            0
        };
        let r = [self.seconds, self.minutes, self.hours, self.days as u8, control];
        assert(r@ =~= self.registers());
        r
    }

    /// Brings the clock up to the present time, writes `value` to register
    /// `index`, and takes the present time again as the last update. A clock
    /// whose counters were in range keeps them in range.
    pub fn set_mbc3_register(&mut self, index: usize, value: u8)
        ensures
            old(self).wf() ==> final(self).wf(),
            exists|now: Option<ClockReading>|
                *final(self) == (Rtc {
                    last_update: final(self).last_update,
                    ..#[trigger] old(self).updated(now).with_register(index, value)
                }),
    {
        self.update();
        let ghost now = choose|now: Option<ClockReading>| *self == old(self).updated(now);
        match index {
            0 => self.seconds = value % 60,
            1 => self.minutes = value % 60,
            2 => self.hours = value % 24,
            3 => self.days = (self.days & 0x100) | value as u16,
            4 => {
                self.days = (self.days & 0xFF) | ((value as u16 & 0x01) << 8);
                self.halt = value & 0x40 != 0;
                self.carry = value & 0x80 != 0;
            },
            _ => {},
        }
        self.last_update = clock_now();
        proof {
            crate::laws::lemma_rtc_counters_in_range(*old(self), now, index, value);
        }
        assert(*self == (Rtc {
            last_update: self.last_update,
            ..old(self).updated(now).with_register(index, value)
        }));
    }
}

} // verus!
