use crate::text::text_matches;
use vstd::prelude::*;

verus! {

/// How a store chooses what to drop when it is full.
#[derive(Debug, Clone, Copy, PartialEq, Eq, Structural)]
pub enum EvictionPolicy {
    NoEviction,
    TinyLeastFrequentlyUsed,
    LeastRecentylUsed,
}

/// Display text of a policy.
pub open spec fn spec_policy_str(p: EvictionPolicy) -> Seq<char> {
    match p {
        EvictionPolicy::NoEviction => "None"@,
        EvictionPolicy::TinyLeastFrequentlyUsed => "Tiny LFU"@,
        EvictionPolicy::LeastRecentylUsed => "LFU"@,
    }
}

/// Name of a policy on the command line.
pub open spec fn spec_policy_value_name(p: EvictionPolicy) -> Seq<char> {
    match p {
        EvictionPolicy::NoEviction => "none"@,
        EvictionPolicy::TinyLeastFrequentlyUsed => "tiny-least-frequently-used"@,
        EvictionPolicy::LeastRecentylUsed => "least-recentyl-used"@,
    }
}

/// The first policy, in declaration order, whose command line name is `input`.
pub open spec fn spec_policy_from_str(input: Seq<char>, ignore_case: bool) -> Option<
    EvictionPolicy,
> {
    if text_matches(input, spec_policy_value_name(EvictionPolicy::NoEviction), ignore_case) {
        Some(EvictionPolicy::NoEviction)
    } else if text_matches(
        input,
        spec_policy_value_name(EvictionPolicy::TinyLeastFrequentlyUsed),
        ignore_case,
    ) {
        Some(EvictionPolicy::TinyLeastFrequentlyUsed)
    } else if text_matches(
        input,
        spec_policy_value_name(EvictionPolicy::LeastRecentylUsed),
        ignore_case,
    ) {
        Some(EvictionPolicy::LeastRecentylUsed)
    } else {
        None
    }
}

/// `clap::builder::PossibleValue::new(name).matches(input, ignore_case)`:
/// whether `input` is the value's name, compared without regard to ASCII
/// case when `ignore_case` is set (the value has no aliases).
#[verifier::external_body]
fn possible_value_matches(name: &'static str, input: &str, ignore_case: bool) -> (r: bool)
    ensures
        r == text_matches(input@, name@, ignore_case),
{
    clap::builder::PossibleValue::new(name).matches(input, ignore_case)
}

impl EvictionPolicy {
    pub fn as_str(&self) -> (r: &'static str)
        ensures
            r@ == spec_policy_str(*self),
    {
        match self {
            EvictionPolicy::NoEviction => "None",
            EvictionPolicy::TinyLeastFrequentlyUsed => "Tiny LFU",
            EvictionPolicy::LeastRecentylUsed => "LFU",
        }
    }

    /// The policy whose command line name is `input` (compared without
    /// regard to ASCII case when `ignore_case` is set), or the message
    /// `invalid variant: <input>`.
    pub fn from_str(input: &str, ignore_case: bool) -> (r: Result<EvictionPolicy, String>)
        ensures
            match r {
                Ok(p) => spec_policy_from_str(input@, ignore_case) == Some(p),
                Err(e) => spec_policy_from_str(input@, ignore_case) is None && e@ == "invalid variant: "@
                    + input@,
            },
    {
        if possible_value_matches("none", input, ignore_case) {
            Ok(EvictionPolicy::NoEviction)
        } else if possible_value_matches("tiny-least-frequently-used", input, ignore_case) {
            Ok(EvictionPolicy::TinyLeastFrequentlyUsed)
        } else if possible_value_matches("least-recentyl-used", input, ignore_case) {
            Ok(EvictionPolicy::LeastRecentylUsed)
        } else {
            let mut message = String::from_str("invalid variant: ");
            message.append(input);
            Err(message)
        }
    }
}

} // verus!
