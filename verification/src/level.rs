//! Bidirectional mapping between the native leveling enum and the host's
//! integer level encoding; pure and stateless.

use vstd::prelude::*;

verus! {

/// The five severities of the native logging facade.
#[derive(Clone, Copy, Debug, PartialEq, Eq, Structural)]
pub enum Level {
    Trace,
    Debug,
    Info,
    Warn,
    Error,
}

/// The host's five severities, encoded on the wire as 0, 10, 20, 30, 40.
/// The gaps are intentional: finer-grained host-side level systems bucket
/// into these five.
#[derive(Clone, Copy, Debug, PartialEq, Eq, Structural)]
pub enum SLF4JLogLevel {
    Trace,
    Debug,
    Info,
    Warn,
    Error,
}

impl SLF4JLogLevel {
    /// The host level corresponding to a native level: a total bijection.
    pub open spec fn of_level_spec(level: Level) -> SLF4JLogLevel {
        match level {
            Level::Trace => SLF4JLogLevel::Trace,
            Level::Debug => SLF4JLogLevel::Debug,
            Level::Info => SLF4JLogLevel::Info,
            Level::Warn => SLF4JLogLevel::Warn,
            Level::Error => SLF4JLogLevel::Error,
        }
    }

    pub fn of_level(level: Level) -> (r: Self)
        ensures
            r == Self::of_level_spec(level),
    {
        match level {
            Level::Trace => SLF4JLogLevel::Trace,
            Level::Debug => SLF4JLogLevel::Debug,
            Level::Info => SLF4JLogLevel::Info,
            Level::Warn => SLF4JLogLevel::Warn,
            Level::Error => SLF4JLogLevel::Error,
        }
    }

    /// The native level corresponding to a host level: the inverse mapping.
    pub open spec fn to_level_spec(self) -> Level {
        match self {
            SLF4JLogLevel::Trace => Level::Trace,
            SLF4JLogLevel::Debug => Level::Debug,
            SLF4JLogLevel::Info => Level::Info,
            SLF4JLogLevel::Warn => Level::Warn,
            SLF4JLogLevel::Error => Level::Error,
        }
    }

    pub fn to_level(self) -> (r: Level)
        ensures
            r == self.to_level_spec(),
    {
        match self {
            SLF4JLogLevel::Trace => Level::Trace,
            SLF4JLogLevel::Debug => Level::Debug,
            SLF4JLogLevel::Info => Level::Info,
            SLF4JLogLevel::Warn => Level::Warn,
            SLF4JLogLevel::Error => Level::Error,
        }
    }

    /// The integer the host uses on the wire for this level.
    pub open spec fn to_int_spec(self) -> i32 {
        match self {
            SLF4JLogLevel::Trace => 0,
            SLF4JLogLevel::Debug => 10,
            SLF4JLogLevel::Info => 20,
            SLF4JLogLevel::Warn => 30,
            SLF4JLogLevel::Error => 40,
        }
    }

    pub fn to_int(self) -> (r: i32)
        ensures
            r == self.to_int_spec(),
    {
        match self {
            SLF4JLogLevel::Trace => 0,
            SLF4JLogLevel::Debug => 10,
            SLF4JLogLevel::Info => 20,
            SLF4JLogLevel::Warn => 30,
            SLF4JLogLevel::Error => 40,
        }
    }

    /// Decoding a host integer is partial: any integer outside
    /// {0, 10, 20, 30, 40} is rejected, never silently coerced.
    pub open spec fn from_int_spec(level: i32) -> Result<SLF4JLogLevel, ()> {
        if level == 0 {
            Ok(SLF4JLogLevel::Trace)
        } else if level == 10 {
            Ok(SLF4JLogLevel::Debug)
        } else if level == 20 {
            Ok(SLF4JLogLevel::Info)
        } else if level == 30 {
            Ok(SLF4JLogLevel::Warn)
        } else if level == 40 {
            Ok(SLF4JLogLevel::Error)
        } else {
            Err(())
        }
    }

    pub fn from_int(level: i32) -> (r: Result<Self, ()>)
        ensures
            r == Self::from_int_spec(level),
    {
        match level {
            0 => Ok(SLF4JLogLevel::Trace),
            10 => Ok(SLF4JLogLevel::Debug),
            20 => Ok(SLF4JLogLevel::Info),
            30 => Ok(SLF4JLogLevel::Warn),
            40 => Ok(SLF4JLogLevel::Error),
            _ => Err(()),
        }
    }

    /// Decoding with a caller-chosen fallback for unrecognized integers.
    pub open spec fn decode_or_spec(level: i32, fallback: SLF4JLogLevel) -> SLF4JLogLevel {
        match Self::from_int_spec(level) {
            Ok(l) => l,
            Err(_) => fallback,
        }
    }

    pub fn decode_or(level: i32, fallback: SLF4JLogLevel) -> (r: Self)
        ensures
            r == Self::decode_or_spec(level, fallback),
    {
        match Self::from_int(level) {
            Ok(l) => l,
            Err(_) => fallback,
        }
    }

    /// The lowercase name of the host logger method serving this level.
    pub open spec fn method_name_spec(self) -> Seq<char> {
        match self {
            SLF4JLogLevel::Trace => "trace"@,
            SLF4JLogLevel::Debug => "debug"@,
            SLF4JLogLevel::Info => "info"@,
            SLF4JLogLevel::Warn => "warn"@,
            SLF4JLogLevel::Error => "error"@,
        }
    }

    pub fn method_name(self) -> (r: &'static str)
        ensures
            r@ == self.method_name_spec(),
    {
        match self {
            SLF4JLogLevel::Trace => "trace",
            SLF4JLogLevel::Debug => "debug",
            SLF4JLogLevel::Info => "info",
            SLF4JLogLevel::Warn => "warn",
            SLF4JLogLevel::Error => "error",
        }
    }
}

/// The native-to-host level mapping and its inverse are a total bijection
/// over the five levels: translating a native level to the host scheme and
/// back yields the original level, and likewise starting from a host level.
pub proof fn lemma_level_mapping_bijective(level: Level, host: SLF4JLogLevel)
    ensures
        SLF4JLogLevel::of_level_spec(level).to_level_spec() == level,
        SLF4JLogLevel::of_level_spec(host.to_level_spec()) == host,
{
}

/// Encoding any host level to its wire integer and decoding it again
/// yields the same level.
pub proof fn lemma_encode_decode_round_trip(host: SLF4JLogLevel)
    ensures
        SLF4JLogLevel::from_int_spec(host.to_int_spec()) == Ok::<SLF4JLogLevel, ()>(host),
{
}

/// Decoding any recognized wire integer and encoding the result again
/// yields the same integer.
pub proof fn lemma_decode_encode_round_trip(level: i32)
    requires
        SLF4JLogLevel::from_int_spec(level) is Ok,
    ensures
        SLF4JLogLevel::from_int_spec(level)->Ok_0.to_int_spec() == level,
{
}

/// Decoding with a fallback never fails: a recognized integer decodes to
/// its own level and every other integer yields exactly the fallback.
pub proof fn lemma_decode_fallback(level: i32, fallback: SLF4JLogLevel)
    ensures
        SLF4JLogLevel::from_int_spec(level) is Ok ==> SLF4JLogLevel::decode_or_spec(
            level,
            fallback,
        ) == SLF4JLogLevel::from_int_spec(level)->Ok_0,
        SLF4JLogLevel::from_int_spec(level) is Err ==> SLF4JLogLevel::decode_or_spec(
            level,
            fallback,
        ) == fallback,
{
}

} // verus!
