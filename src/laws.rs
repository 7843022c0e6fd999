use vstd::prelude::*;
use crate::derive::{derived, first_fault, Generated};
use crate::model::{Case, Declaration, DeriveError, DeriveErrorKind};
use crate::template::{ctor_text, Piece};


verus! {

proof fn lemma_no_fault(s: Seq<Case>)
    requires
        forall|j: int| 0 <= j < s.len() ==> (#[trigger] s[j]).fault() is None,
    ensures
        first_fault(s) is None,
    decreases s.len(),
{
    if s.len() > 0 {
        lemma_no_fault(s.drop_last());
    }
}

proof fn lemma_some_fault(s: Seq<Case>, k: int)
    requires
        0 <= k < s.len(),
        s[k].fault() is Some,
    ensures
        first_fault(s) is Some,
    decreases s.len(),
{
    if k < s.len() - 1 {
        lemma_some_fault(s.drop_last(), k);
    }
}

proof fn lemma_fault_at(s: Seq<Case>, k: int)
    requires
        0 <= k < s.len(),
        s[k].fault() is Some,
        forall|j: int| 0 <= j < k ==> (#[trigger] s[j]).fault() is None,
    ensures
        first_fault(s) == Some(DeriveError { kind: s[k].fault()->0, span: s[k].span }),
    decreases s.len(),
{
    if k < s.len() - 1 {
        lemma_fault_at(s.drop_last(), k);
    } else {
        lemma_no_fault(s.drop_last());
    }
}

/// A derivation on an enum whose variants each hold exactly one positional
/// payload succeeds, and besides the one assertion block, formatting impls and
/// `Error` impl it emits one obligation and one `From` impl per variant.
pub proof fn lemma_valid_enum_derives(decl: Declaration, r: Result<Generated, DeriveError>)
    requires
        decl.body is Enum,
        forall|i: int| 0 <= i < decl.cases().len() ==> {
            &&& (#[trigger] decl.cases()[i]).payload is Positional
            &&& decl.cases()[i].payload.arity() == 1
        },
        derived(decl, r),
    ensures
        r is Ok,
        r->Ok_0.assertion.constraints@.len() == decl.cases().len(),
        r->Ok_0.conversions@.len() == decl.cases().len(),
{
    lemma_no_fault(decl.cases());
}

/// A variant without named fields that holds no payload or more than one makes
/// the derivation fail; where the variants before it are valid, it fails with
/// `InvalidArity` at that variant.
pub proof fn lemma_bad_arity_fails(decl: Declaration, k: int, r: Result<Generated, DeriveError>)
    requires
        decl.body is Enum,
        0 <= k < decl.cases().len(),
        !(decl.cases()[k].payload is Named),
        decl.cases()[k].payload.arity() != 1,
        derived(decl, r),
    ensures
        r is Err,
        (forall|j: int| 0 <= j < k ==> (#[trigger] decl.cases()[j]).fault() is None) ==> {
            &&& r->Err_0.kind == DeriveErrorKind::InvalidArity
            &&& r->Err_0.span == decl.cases()[k].span
        },
{
    lemma_some_fault(decl.cases(), k);
    if forall|j: int| 0 <= j < k ==> (#[trigger] decl.cases()[j]).fault() is None {
        lemma_fault_at(decl.cases(), k);
    }
}

/// A variant written with named fields, whatever their count, makes the
/// derivation fail; where the variants before it are valid, it fails with
/// `NamedPayloadNotAllowed` at that variant.
pub proof fn lemma_named_payload_fails(decl: Declaration, k: int, r: Result<Generated, DeriveError>)
    requires
        decl.body is Enum,
        0 <= k < decl.cases().len(),
        decl.cases()[k].payload is Named,
        derived(decl, r),
    ensures
        r is Err,
        (forall|j: int| 0 <= j < k ==> (#[trigger] decl.cases()[j]).fault() is None) ==> {
            &&& r->Err_0.kind == DeriveErrorKind::NamedPayloadNotAllowed
            &&& r->Err_0.span == decl.cases()[k].span
        },
{
    lemma_some_fault(decl.cases(), k);
    if forall|j: int| 0 <= j < k ==> (#[trigger] decl.cases()[j]).fault() is None {
        lemma_fault_at(decl.cases(), k);
    }
}

/// A declaration that is not an enum is refused with `NotAUnion`, reported at
/// the declaration.
pub proof fn lemma_not_enum_fails(decl: Declaration, r: Result<Generated, DeriveError>)
    requires
        !(decl.body is Enum),
        derived(decl, r),
    ensures
        r is Err,
        r->Err_0.kind == DeriveErrorKind::NotAUnion,
        r->Err_0.span == decl.span,
{
}

/// The two sequences of pieces hold the same text at the same locations.
pub open spec fn same_pieces(a: Seq<Piece>, b: Seq<Piece>) -> bool {
    &&& a.len() == b.len()
    &&& forall|i: int| 0 <= i < a.len() ==> (#[trigger] a[i]).text@ == b[i].text@ && a[i].span == b[i].span
}

/// The two outputs are the same, character for character and location for location.
pub open spec fn same_output(a: Generated, b: Generated) -> bool {
    &&& a.assertion.name@ == b.assertion.name@
    &&& same_pieces(a.assertion.constraints@, b.assertion.constraints@)
    &&& a.formatting@ == b.formatting@
    &&& a.error_impl@ == b.error_impl@
    &&& same_pieces(a.conversions@, b.conversions@)
}

/// Two derivations on the same declaration give the same output, or the same error.
pub proof fn lemma_derive_deterministic(
    decl: Declaration,
    r1: Result<Generated, DeriveError>,
    r2: Result<Generated, DeriveError>,
)
    requires
        derived(decl, r1),
        derived(decl, r2),
    ensures
        r1 is Ok <==> r2 is Ok,
        r1 is Ok ==> same_output(r1->Ok_0, r2->Ok_0),
        r1 is Err ==> r1->Err_0 == r2->Err_0,
{
    if r1 is Ok && r2 is Ok {
        let (g1, g2) = (r1->Ok_0, r2->Ok_0);
        let cases = decl.cases();
        assert forall|i: int| 0 <= i < g1.assertion.constraints@.len() implies
            (#[trigger] g1.assertion.constraints@[i]).text@ == g2.assertion.constraints@[i].text@
            && g1.assertion.constraints@[i].span == g2.assertion.constraints@[i].span by {
            assert(g1.describes_case(decl.name@, cases[i], i));
            assert(g2.describes_case(decl.name@, cases[i], i));
        }
        assert forall|i: int| 0 <= i < g1.conversions@.len() implies
            (#[trigger] g1.conversions@[i]).text@ == g2.conversions@[i].text@
            && g1.conversions@[i].span == g2.conversions@[i].span by {
            assert(g1.describes_case(decl.name@, cases[i], i));
            assert(g2.describes_case(decl.name@, cases[i], i));
        }
    }
}

proof fn lemma_ctor_injective(u: Seq<char>, a: Seq<char>, b: Seq<char>)
    requires
        ctor_text(u, a) == ctor_text(u, b),
    ensures
        a == b,
{
    let p = u + "::"@;
    let x = ctor_text(u, a);
    assert(x == p + a + "(error)"@);
    assert(a =~= x.subrange(p.len() as int, (p.len() + a.len()) as int));
    assert(b =~= ctor_text(u, b).subrange(p.len() as int, (p.len() + b.len()) as int));
}

/// The conversion of variant `i` takes a value of exactly that variant's payload
/// type and returns `Union::Case(error)`, the value moved in unchanged. That
/// expression is the pattern of variant `i`'s match arm and of no other
/// variant's arm, so matching a converted value binds the original payload.
pub proof fn lemma_conversion_round_trip(decl: Declaration, g: Generated, i: int)
    requires
        derived(decl, Ok(g)),
        0 <= i < decl.cases().len(),
        forall|a: int, b: int|
            0 <= a < decl.cases().len() && 0 <= b < decl.cases().len() && a != b
                ==> (#[trigger] decl.cases()[a]).name@ != (#[trigger] decl.cases()[b]).name@,
    ensures
        ({
            let u = decl.name@;
            let case = decl.cases()[i];
            let ty = case.payload_type().text@;
            &&& g.conversions@[i].text@ == "impl From<"@ + ty + "> for "@ + u + " { fn from(error: "@ + ty
                + ") -> Self { "@ + ctor_text(u, case.name@) + " } }"@
            &&& g.conversions@[i].span == Some(case.payload_type().span)
            &&& forall|j: int| 0 <= j < decl.cases().len() ==>
                (ctor_text(u, (#[trigger] decl.cases()[j]).name@) == ctor_text(u, case.name@) <==> j == i)
        }),
{
    let u = decl.name@;
    let cases = decl.cases();
    assert(g.describes_case(u, cases[i], i));
    assert forall|j: int| 0 <= j < cases.len() implies
        (ctor_text(u, (#[trigger] cases[j]).name@) == ctor_text(u, cases[i].name@) <==> j == i) by {
        if ctor_text(u, cases[j].name@) == ctor_text(u, cases[i].name@) {
            lemma_ctor_injective(u, cases[j].name@, cases[i].name@);
        }
    }
}

} // verus!
