use vstd::prelude::*;
use proc_macro2::Span;

verus! {

/// A piece of generated code, with the location that the host should give its
/// tokens (`None`: the location of the derive itself).
pub struct Piece {
    pub text: String,
    pub span: Option<Span>,
}

/// The expression `Union::Case(error)`: the value built by a conversion, and
/// the pattern of the match arm of that variant.
pub open spec fn ctor_text(union_name: Seq<char>, case_name: Seq<char>) -> Seq<char> {
    union_name + "::"@ + case_name + "(error)"@
}

/// One match arm `Union::Case(error) => action, `.
pub open spec fn arm_text(union_name: Seq<char>, case_name: Seq<char>, action: Seq<char>) -> Seq<char> {
    ctor_text(union_name, case_name) + " => "@ + action + ", "@
}

/// The match arm of one enum variant, waiting for the action to perform on the
/// bound payload. Built once per variant and used for every generated method.
pub struct ArmTemplate {
    pub union_name: String,
    pub case_name: String,
}

impl ArmTemplate {
    pub open spec fn text(self, action: Seq<char>) -> Seq<char> {
        arm_text(self.union_name@, self.case_name@, action)
    }

    /// The arm with `action` as its body.
    pub fn instantiate(&self, action: &str) -> (r: String)
        ensures
            r@ == self.text(action@),
    {
        let mut s = self.union_name.clone();
        s.append("::");
        s.append(self.case_name.as_str());
        s.append("(error)");
        s.append(" => ");
        s.append(action);
        s.append(", ");
        s
    }
}

/// All arms of `arms`, in order, each with `action` as its body.
pub open spec fn arms_text(arms: Seq<ArmTemplate>, action: Seq<char>) -> Seq<char>
    decreases arms.len(),
{
    if arms.len() == 0 {
        Seq::empty()
    } else {
        arms_text(arms.drop_last(), action) + arms.last().text(action)
    }
}

/// The body of a `match` over the enum: every arm with the same action.
pub fn render_arms(arms: &Vec<ArmTemplate>, action: &str) -> (r: String)
    ensures
        r@ == arms_text(arms@, action@),
{
    let mut s = String::new();
    let mut i: usize = 0;
    while i < arms.len()
        invariant
            i <= arms@.len(),
            s@ == arms_text(arms@.subrange(0, i as int), action@),
        decreases arms@.len() - i,
    {
        let arm = arms[i].instantiate(action);
        s.append(arm.as_str());
        assert(arms@.subrange(0, i + 1).drop_last() =~= arms@.subrange(0, i as int));
        i = i + 1;
    }
    assert(arms@.subrange(0, i as int) =~= arms@);
    s
}

} // verus!
