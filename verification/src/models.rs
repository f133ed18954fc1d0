use vstd::prelude::*;

verus! {

/// The length of a typing test.
#[derive(Debug, Clone, Copy, PartialEq, Eq, Structural)]
pub enum Duration {
    Seconds15,
    Seconds30,
    Minute1,
}

impl Duration {
    /// Number of target words drawn for a test of this length.
    #[verifier::allow_in_spec]
    pub fn word_count(&self) -> u32
        returns
            match self {
                Duration::Seconds15 => 15u32,
                Duration::Seconds30 => 30u32,
                Duration::Minute1 => 60u32,
            },
    {
        match self {
            Duration::Seconds15 => 15,
            Duration::Seconds30 => 30,
            Duration::Minute1 => 60,
        }
    }

    /// Length of the test in seconds.
    #[verifier::allow_in_spec]
    pub fn as_secs(&self) -> u64
        returns
            match self {
                Duration::Seconds15 => 15u64,
                Duration::Seconds30 => 30u64,
                Duration::Minute1 => 60u64,
            },
    {
        match self {
            Duration::Seconds15 => 15,
            Duration::Seconds30 => 30,
            Duration::Minute1 => 60,
        }
    }

    /// Text shown on the button that selects this duration.
    pub fn label(&self) -> (r: &'static str)
        ensures
            r@ == match self {
                Duration::Seconds15 => "15s"@,
                Duration::Seconds30 => "30s"@,
                Duration::Minute1 => "1m"@,
            },
    {
        match self {
            Duration::Seconds15 => "15s",
            Duration::Seconds30 => "30s",
            Duration::Minute1 => "1m",
        }
    }
}

/// A stored test result.
#[derive(Debug, Clone)]
pub struct Score {
    pub id: Option<i64>,
    pub wpm: i32,
    pub acc: i32,
    pub date: String,
}

/// The best speed from the stored maximum: 0 when nothing is stored.
pub fn best_wpm_of(stored_max: Option<i32>) -> (r: i32)
    ensures
        r == match stored_max {
            Some(m) => m,
            None => 0,
        },
{
    match stored_max {
        Some(m) => m,
        None => 0,
    }
}

} // verus!
