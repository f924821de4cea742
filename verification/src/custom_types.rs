use vstd::prelude::*;

verus! {

/// Compact urgency scale with a one-byte storage code.
#[derive(Debug, PartialEq, Eq, Structural, Clone, Copy)]
pub enum Priority {
    Low,
    Normal,
    High,
    Now,
}

/// The stable one-byte code of a priority.
pub open spec fn spec_priority_code(p: Priority) -> u8 {
    match p {
        Priority::Low => 1,
        Priority::Normal => 2,
        Priority::High => 3,
        Priority::Now => 4,
    }
}

/// The priority a one-byte code decodes to; any code outside 2..=4 decodes
/// to `Low`.
pub open spec fn spec_priority_new(code: u8) -> Priority {
    if code == 2 {
        Priority::Normal
    } else if code == 3 {
        Priority::High
    } else if code == 4 {
        Priority::Now
    } else {
        Priority::Low
    }
}

impl Priority {
    /// Encode this priority as its stable one-byte code.
    pub fn code(self) -> (r: u8)
        ensures
            r == spec_priority_code(self),
    {
        match self {
            Priority::Low => 1,
            Priority::Normal => 2,
            Priority::High => 3,
            Priority::Now => 4,
        }
    }

    /// Decode a one-byte code, defaulting to `Low` for unknown codes.
    pub fn new(code: u8) -> (r: Priority)
        ensures
            r == spec_priority_new(code),
    {
        match code {
            2 => Priority::Normal,
            3 => Priority::High,
            4 => Priority::Now,
            _ => Priority::Low,
        }
    }
}

/// Decoding an encoded priority yields the original priority, for every
/// variant.
pub proof fn lemma_priority_code_round_trip(p: Priority)
    ensures
        spec_priority_new(spec_priority_code(p)) == p,
{
}

/// How often something recurs, with a one-byte storage code.
#[derive(Debug, PartialEq, Eq, Structural, Clone, Copy)]
pub enum Frequence {
    OneTime,
    Daily,
    Weekly,
    Monthly,
    Yearly,
}

/// The stable one-byte code of a frequency.
pub open spec fn spec_frequence_code(f: Frequence) -> u8 {
    match f {
        Frequence::OneTime => 1,
        Frequence::Daily => 2,
        Frequence::Weekly => 3,
        Frequence::Monthly => 4,
        Frequence::Yearly => 5,
    }
}

/// The frequency a one-byte code decodes to; any code outside 2..=5 decodes
/// to `OneTime`.
pub open spec fn spec_frequence_new(code: u8) -> Frequence {
    if code == 2 {
        Frequence::Daily
    } else if code == 3 {
        Frequence::Weekly
    } else if code == 4 {
        Frequence::Monthly
    } else if code == 5 {
        Frequence::Yearly
    } else {
        Frequence::OneTime
    }
}

impl Frequence {
    /// Encode this frequency as its stable one-byte code.
    pub fn code(self) -> (r: u8)
        ensures
            r == spec_frequence_code(self),
    {
        match self {
            Frequence::OneTime => 1,
            Frequence::Daily => 2,
            Frequence::Weekly => 3,
            Frequence::Monthly => 4,
            Frequence::Yearly => 5,
        }
    }

    /// Decode a one-byte code, defaulting to `OneTime` for unknown codes.
    pub fn new(code: u8) -> (r: Frequence)
        ensures
            r == spec_frequence_new(code),
    {
        match code {
            2 => Frequence::Daily,
            3 => Frequence::Weekly,
            4 => Frequence::Monthly,
            5 => Frequence::Yearly,
            _ => Frequence::OneTime,
        }
    }
}

/// Decoding an encoded frequency yields the original frequency, for every
/// variant.
pub proof fn lemma_frequence_code_round_trip(f: Frequence)
    ensures
        spec_frequence_new(spec_frequence_code(f)) == f,
{
}

} // verus!
