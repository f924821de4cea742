use vstd::prelude::*;

verus! {

/// Urgency of a task, encoded in storage as an integer in 1..=4.
#[derive(Debug, PartialEq, Eq, Structural, Clone, Copy)]
pub enum Priority {
    Low,
    Normal,
    High,
    Now,
}

/// The stable integer code of a priority.
pub open spec fn spec_code(p: Priority) -> i32 {
    match p {
        Priority::Low => 1,
        Priority::Normal => 2,
        Priority::High => 3,
        Priority::Now => 4,
    }
}

/// The priority a code decodes to; any code outside 2..=4 decodes to `Low`.
pub open spec fn spec_new(code: i32) -> Priority {
    if code == 2 {
        Priority::Normal
    } else if code == 3 {
        Priority::High
    } else if code == 4 {
        Priority::Now
    } else {
        Priority::Low
    }
}

impl Priority {
    /// Encode this priority as its stable integer code.
    pub fn code(&self) -> (r: i32)
        ensures
            r == spec_code(*self),
    {
        match self {
            Priority::Low => 1,
            Priority::Normal => 2,
            Priority::High => 3,
            Priority::Now => 4,
        }
    }

    /// Decode an integer code, defaulting to `Low` for unknown codes.
    pub fn new(code: i32) -> (r: Priority)
        ensures
            r == spec_new(code),
    {
        match code {
            2 => Priority::Normal,
            3 => Priority::High,
            4 => Priority::Now,
            _ => Priority::Low,
        }
    }
}

/// Decoding an encoded priority yields the original priority, for every
/// variant.
pub proof fn lemma_priority_round_trip(p: Priority)
    ensures
        spec_new(spec_code(p)) == p,
{
}

/// Every code outside the encodings of `Normal`, `High` and `Now` decodes to
/// `Low`: decoding is total, with `Low` as the permissive default.
pub proof fn lemma_priority_decode_default(code: i32)
    requires
        !(2 <= code <= 4),
    ensures
        spec_new(code) == Priority::Low,
{
}

} // verus!
