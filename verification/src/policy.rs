//! The minimal identity of a policy that must stay reachable at runtime:
//! enough for a host-function dispatcher to know which policy called, which
//! instance it is bound to, and whether the asynchronous world can be
//! reached.

use vstd::prelude::*;

use tokio::sync::mpsc;
use vstd::string::StringExecFns;

use crate::callback_requests::CallbackRequest;

verus! {

/// The decimal digit character for a value below ten.
pub open spec fn digit_char(d: nat) -> char {
    if d == 0 {
        '0'
    } else if d == 1 {
        '1'
    } else if d == 2 {
        '2'
    } else if d == 3 {
        '3'
    } else if d == 4 {
        '4'
    } else if d == 5 {
        '5'
    } else if d == 6 {
        '6'
    } else if d == 7 {
        '7'
    } else if d == 8 {
        '8'
    } else {
        '9'
    }
}

/// The decimal rendering of a natural number, most significant digit first.
pub open spec fn spec_decimal(n: nat) -> Seq<char>
    decreases n,
{
    if n < 10 {
        seq![digit_char(n)]
    } else {
        spec_decimal(n / 10) + seq![digit_char(n % 10)]
    }
}

/// How an optional instance handle is rendered: the decimal handle inside
/// `Some(...)`, or the word `None`.
pub open spec fn spec_instance_text(instance: Option<u64>) -> Seq<char> {
    match instance {
        Some(n) => "Some("@ + spec_decimal(n as nat) + ")"@,
        None => "None"@,
    }
}

/// How the callback channel is rendered: only its presence, never its
/// internals.
pub open spec fn spec_channel_text(has_channel: bool) -> Seq<char> {
    if has_channel {
        "Some(...)"@
    } else {
        "None"@
    }
}

/// What a rendered policy identity looks like: the identifier and the
/// instance handle in full, and the channel as presence text — a function
/// of those three values and of nothing else, so the rendering can never
/// leak the channel's internals.
pub open spec fn policy_rendering(
    id: Seq<char>,
    instance: Option<u64>,
    has_channel: bool,
) -> Seq<char> {
    "Policy { id: \""@ + id + "\", policy_id: "@ + spec_instance_text(instance)
        + ", callback_channel: "@ + spec_channel_text(has_channel) + " }"@
}

/// The one-character string for a decimal digit.
fn digit_str(d: u64) -> (r: &'static str)
    requires
        d < 10,
    ensures
        r@ == seq![digit_char(d as nat)],
{
    proof {
        reveal_strlit("0");
        reveal_strlit("1");
        reveal_strlit("2");
        reveal_strlit("3");
        reveal_strlit("4");
        reveal_strlit("5");
        reveal_strlit("6");
        reveal_strlit("7");
        reveal_strlit("8");
        reveal_strlit("9");
    }
    match d {
        0 => "0",
        1 => "1",
        2 => "2",
        3 => "3",
        4 => "4",
        5 => "5",
        6 => "6",
        7 => "7",
        8 => "8",
        _ => "9",
    }
}

/// Renders a number in decimal, matching its specification digit by digit.
pub fn u64_to_decimal(n: u64) -> (r: String)
    ensures
        r@ == spec_decimal(n as nat),
    decreases n,
{
    if n < 10 {
        digit_str(n).to_owned()
    } else {
        let mut s = u64_to_decimal(n / 10);
        s.append(digit_str(n % 10));
        s
    }
}

/// Minimal, freely copied information about a policy: its identifier,
/// whether it may mutate its input, the handle of the running instance it is
/// bound to (absent until the guest is instantiated), and the channel the
/// synchronous world uses to request asynchronous work (absent unless the
/// embedder supplied one).
///
/// Two identities are equal iff `id` and `policy_id` both match; the
/// presence or contents of the callback channel never takes part.
#[derive(Clone)]
pub struct Policy {
    pub id: String,
    pub mutating: bool,
    pub policy_id: Option<u64>,
    pub callback_channel: Option<mpsc::Sender<CallbackRequest>>,
}

impl PartialEq for Policy {
    fn eq(&self, other: &Self) -> (r: bool) {
        let ids_match = self.id == other.id;
        let instances_match = match (self.policy_id, other.policy_id) {
            (None, None) => true,
            (Some(a), Some(b)) => a == b,
            _ => false,
        };
        ids_match && instances_match
    }
}

impl vstd::std_specs::cmp::PartialEqSpecImpl for Policy {
    open spec fn obeys_eq_spec() -> bool {
        true
    }

    open spec fn eq_spec(&self, other: &Self) -> bool {
        self.id@ == other.id@ && self.policy_id == other.policy_id
    }
}

impl Default for Policy {
    fn default() -> (r: Self)
        ensures
            r.id@ == Seq::<char>::empty(),
            r.mutating == false,
            r.policy_id is None,
            r.callback_channel is None,
    {
        Policy { id: String::new(), mutating: false, policy_id: None, callback_channel: None }
    }
}

impl Policy {
    /// Assembles a policy identity. Never fails; the `Result` keeps the
    /// shape callers of evaluator construction expect.
    pub fn new(
        id: String,
        mutating: bool,
        policy_id: Option<u64>,
        callback_channel: Option<mpsc::Sender<CallbackRequest>>,
    ) -> (r: Result<Policy, ()>)
        ensures
            r is Ok,
            r matches Ok(p) ==> p.id@ == id@ && p.mutating == mutating && p.policy_id == policy_id
                && p.callback_channel == callback_channel,
    {
        Ok(Policy { id, mutating, policy_id, callback_channel })
    }

    /// The handle of the running instance this identity is bound to.
    pub fn instance_handle(&self) -> (r: Option<u64>)
        ensures
            r == self.policy_id,
    {
        self.policy_id
    }

    /// Renders this identity for diagnostics: the identifier and the
    /// instance handle in full, the callback channel only as presence,
    /// never its internal state.
    pub fn describe(&self) -> (r: String)
        ensures
            r@ == policy_rendering(self.id@, self.policy_id, self.callback_channel is Some),
    {
        let mut s = "Policy { id: \"".to_owned();
        s.append(self.id.as_str());
        s.append("\", policy_id: ");
        match self.policy_id {
            Some(n) => {
                s.append("Some(");
                let digits = u64_to_decimal(n);
                s.append(digits.as_str());
                s.append(")");
            },
            None => {
                s.append("None");
            },
        }
        s.append(", callback_channel: ");
        if self.callback_channel.is_some() {
            s.append("Some(...)");
        } else {
            s.append("None");
        }
        s.append(" }");
        proof {
            assert(s@ =~= policy_rendering(
                self.id@,
                self.policy_id,
                self.callback_channel is Some,
            ));
        }
        s
    }

    /// Two identities render identically whenever they agree on identifier,
    /// instance handle and channel presence — however the channels
    /// themselves differ.
    pub proof fn lemma_rendering_ignores_channel_state(a: Policy, b: Policy)
        requires
            a.id@ == b.id@,
            a.policy_id == b.policy_id,
            a.callback_channel is Some <==> b.callback_channel is Some,
        ensures
            policy_rendering(a.id@, a.policy_id, a.callback_channel is Some)
                == policy_rendering(b.id@, b.policy_id, b.callback_channel is Some),
    {
    }

    /// The rendering carries the identifier in full: it appears as a
    /// contiguous run right after the opening text.
    pub proof fn lemma_rendering_contains_id(id: Seq<char>, instance: Option<u64>, has_channel: bool)
        ensures
            ({
                let r = policy_rendering(id, instance, has_channel);
                let start = "Policy { id: \""@.len() as int;
                &&& start + id.len() <= r.len()
                &&& r.subrange(start, start + id.len()) == id
            }),
    {
        let r = policy_rendering(id, instance, has_channel);
        let start = "Policy { id: \""@.len() as int;
        assert forall|k: int| 0 <= k < id.len() implies r[start + k] == id[k] by {}
        assert(r.subrange(start, start + id.len()) =~= id);
    }

    /// The rendering carries the bound instance handle in full: its decimal
    /// form appears as a contiguous run inside the instance text.
    pub proof fn lemma_rendering_contains_instance(id: Seq<char>, n: u64, has_channel: bool)
        ensures
            ({
                let r = policy_rendering(id, Some(n), has_channel);
                let digits = spec_decimal(n as nat);
                let start = ("Policy { id: \""@.len() + id.len() + "\", policy_id: "@.len()
                    + "Some("@.len()) as int;
                &&& start + digits.len() <= r.len()
                &&& r.subrange(start, start + digits.len()) == digits
            }),
    {
        let r = policy_rendering(id, Some(n), has_channel);
        let digits = spec_decimal(n as nat);
        let start = ("Policy { id: \""@.len() + id.len() + "\", policy_id: "@.len()
            + "Some("@.len()) as int;
        assert forall|k: int| 0 <= k < digits.len() implies r[start + k] == digits[k] by {}
        assert(r.subrange(start, start + digits.len()) =~= digits);
    }

    /// Equality of policy identities is exactly agreement on `id` and
    /// instance handle, independent of the callback channel.
    pub proof fn lemma_eq_is_id_and_instance(a: Policy, b: Policy)
        ensures
            vstd::std_specs::cmp::PartialEqSpec::eq_spec(&a, &b) <==> (a.id@ == b.id@
                && a.policy_id == b.policy_id),
    {
    }
}

} // verus!
