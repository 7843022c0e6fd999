use vstd::prelude::*;
use crate::model::{Body, Case, Declaration, DeriveError, DeriveErrorKind, Payload, TypeRef};
use crate::template::{ArmTemplate, Piece, arms_text, ctor_text, render_arms};

verus! {

pub const ASSERT_PREFIX: &'static str = "___AssertName";
pub const ERROR_BOUND: &'static str = ": std::error::Error, ";
pub const DEBUG_ACTION: &'static str = "write!(f, \"{:?}\", error)";
pub const DISPLAY_ACTION: &'static str = "write!(f, \"{}\", error)";
pub const DESCRIPTION_ACTION: &'static str = "error.description()";
pub const CAUSE_ACTION: &'static str = "Some(error)";
pub const SOURCE_ACTION: &'static str = "Some(error)";
pub const FMT_HEAD: &'static str = " { fn fmt(&self, f: &mut std::fmt::Formatter<'_>) -> std::fmt::Result { match self { ";
pub const MATCH_TAIL: &'static str = "} } ";
pub const DESCRIPTION_HEAD: &'static str = " { fn description(&self) -> &str { match self { ";
pub const CAUSE_HEAD: &'static str = "fn cause(&self) -> Option<&dyn std::error::Error> { match self { ";
pub const SOURCE_HEAD: &'static str = "fn source(&self) -> Option<&(dyn std::error::Error + 'static)> { match self { ";

/// `T: std::error::Error, `: the obligation that a payload type is an error.
pub open spec fn constraint_text(ty: Seq<char>) -> Seq<char> {
    ty + ERROR_BOUND@
}

/// `impl From<T> for Union { fn from(error: T) -> Self { Union::Case(error) } }`
pub open spec fn conversion_text(union_name: Seq<char>, case_name: Seq<char>, ty: Seq<char>) -> Seq<char> {
    "impl From<"@ + ty + "> for "@ + union_name + " { fn from(error: "@ + ty + ") -> Self { "@
        + ctor_text(union_name, case_name) + " } }"@
}

/// The match arms of all variants, each with `action` as its body.
pub open spec fn case_arms(union_name: Seq<char>, cases: Seq<Case>, action: Seq<char>) -> Seq<char>
    decreases cases.len(),
{
    if cases.len() == 0 {
        Seq::empty()
    } else {
        case_arms(union_name, cases.drop_last(), action)
            + crate::template::arm_text(union_name, cases.last().name@, action)
    }
}

/// The `Debug` and `Display` impls, around the arms of their `match`es.
pub open spec fn formatting_text(union_name: Seq<char>, debug_arms: Seq<char>, display_arms: Seq<char>) -> Seq<char> {
    "impl std::fmt::Debug for "@ + union_name + FMT_HEAD@ + debug_arms + MATCH_TAIL@ + "} "@
        + "impl std::fmt::Display for "@ + union_name + FMT_HEAD@ + display_arms + MATCH_TAIL@ + "} "@
}

/// The `Error` impl around the arms of its three `match`es.
pub open spec fn error_impl_text(
    union_name: Seq<char>,
    description_arms: Seq<char>,
    cause_arms: Seq<char>,
    source_arms: Seq<char>,
) -> Seq<char> {
    "impl std::error::Error for "@ + union_name
        + DESCRIPTION_HEAD@ + description_arms + MATCH_TAIL@
        + CAUSE_HEAD@ + cause_arms + MATCH_TAIL@
        + SOURCE_HEAD@ + source_arms + MATCH_TAIL@ + "} "@
}

/// The first invalid variant, as the error that reports it.
pub open spec fn first_fault(cases: Seq<Case>) -> Option<DeriveError>
    decreases cases.len(),
{
    if cases.len() == 0 {
        None
    } else {
        match first_fault(cases.drop_last()) {
            Some(e) => Some(e),
            None => match cases.last().fault() {
                Some(k) => Some(DeriveError { kind: k, span: cases.last().span }),
                None => None,
            },
        }
    }
}

/// The error that a derivation on `decl` ends in, if any.
pub open spec fn derive_failure(decl: Declaration) -> Option<DeriveError> {
    match decl.body {
        Body::Enum(cases) => first_fault(cases@),
        _ => Some(DeriveError { kind: DeriveErrorKind::NotAUnion, span: decl.span }),
    }
}

/// The three index-aligned sequences gathered while the variants are checked:
/// the error obligations, the match arm templates and the `From` impls.
pub struct ShapeModel {
    pub checks: Vec<Piece>,
    pub arms: Vec<ArmTemplate>,
    pub conversions: Vec<Piece>,
}

impl ShapeModel {
    /// The model holds exactly what the valid variants `cases` of enum
    /// `union_name` give, in order.
    pub open spec fn models(self, union_name: Seq<char>, cases: Seq<Case>) -> bool {
        &&& self.checks@.len() == cases.len()
        &&& self.arms@.len() == cases.len()
        &&& self.conversions@.len() == cases.len()
        &&& forall|i: int| 0 <= i < cases.len() ==> #[trigger] self.models_case(union_name, cases[i], i)
    }

    /// Entry `i` of each sequence holds what the valid variant `case` gives.
    pub open spec fn models_case(self, union_name: Seq<char>, case: Case, i: int) -> bool {
        let ty = case.payload_type();
        &&& case.fault() is None
        &&& self.checks@[i].text@ == constraint_text(ty.text@)
        &&& self.checks@[i].span == Some(ty.span)
        &&& self.arms@[i].union_name@ == union_name
        &&& self.arms@[i].case_name@ == case.name@
        &&& self.conversions@[i].text@ == conversion_text(union_name, case.name@, ty.text@)
        &&& self.conversions@[i].span == Some(ty.span)
    }

    pub fn new() -> (r: ShapeModel)
        ensures
            r.checks@.len() == 0,
            r.arms@.len() == 0,
            r.conversions@.len() == 0,
    {
        ShapeModel { checks: Vec::new(), arms: Vec::new(), conversions: Vec::new() }
    }

    /// Adds the obligation, arm template and conversion of the valid variant `case`.
    pub fn push_case(&mut self, union_name: &String, case: &Case)
        requires
            case.fault() is None,
        ensures
            final(self).checks@ == old(self).checks@.push(final(self).checks@.last()),
            final(self).arms@ == old(self).arms@.push(final(self).arms@.last()),
            final(self).conversions@ == old(self).conversions@.push(final(self).conversions@.last()),
            final(self).checks@.last().text@ == constraint_text(case.payload_type().text@),
            final(self).checks@.last().span == Some(case.payload_type().span),
            final(self).arms@.last().union_name@ == union_name@,
            final(self).arms@.last().case_name@ == case.name@,
            final(self).conversions@.last().text@ == conversion_text(union_name@, case.name@, case.payload_type().text@),
            final(self).conversions@.last().span == Some(case.payload_type().span),
    {
        let ty: &TypeRef = match &case.payload {
            Payload::Positional(ts) => &ts[0],
            _ => {
                assert(false);
                return;
            },
        };
        let mut check = ty.text.clone();
        check.append(ERROR_BOUND);
        self.checks.push(Piece { text: check, span: Some(ty.span) });

        self.arms.push(ArmTemplate { union_name: union_name.clone(), case_name: case.name.clone() });

        let mut conv = String::from_str("impl From<");
        conv.append(ty.text.as_str());
        conv.append("> for ");
        conv.append(union_name.as_str());
        conv.append(" { fn from(error: ");
        conv.append(ty.text.as_str());
        conv.append(") -> Self { ");
        conv.append(union_name.as_str());
        conv.append("::");
        conv.append(case.name.as_str());
        conv.append("(error)");
        conv.append(" } }");
        self.conversions.push(Piece { text: conv, span: Some(ty.span) });
    }
}

proof fn lemma_first_fault_extends(s: Seq<Case>, k: int)
    requires
        0 <= k <= s.len(),
        first_fault(s.subrange(0, k)) is Some,
    ensures
        first_fault(s) == first_fault(s.subrange(0, k)),
    decreases s.len(),
{
    if s.len() == k {
        assert(s.subrange(0, k) =~= s);
    } else {
        assert(s.drop_last().subrange(0, k) =~= s.subrange(0, k));
        lemma_first_fault_extends(s.drop_last(), k);
    }
}

/// Checks the variants in order and gathers the shape model of the valid ones;
/// stops at the first invalid variant.
pub fn build_shape(union_name: &String, cases: &Vec<Case>) -> (r: Result<ShapeModel, DeriveError>)
    ensures
        match r {
            Ok(m) => first_fault(cases@) is None && m.models(union_name@, cases@),
            Err(e) => first_fault(cases@) == Some(e),
        },
{
    let mut m = ShapeModel::new();
    let mut i: usize = 0;
    while i < cases.len()
        invariant
            i <= cases@.len(),
            first_fault(cases@.subrange(0, i as int)) is None,
            m.models(union_name@, cases@.subrange(0, i as int)),
        decreases cases@.len() - i,
    {
        let c = &cases[i];
        assert(cases@.subrange(0, i + 1).drop_last() =~= cases@.subrange(0, i as int));
        match c.check() {
            Some(kind) => {
                proof {
                    lemma_first_fault_extends(cases@, i + 1);
                }
                return Err(DeriveError { kind, span: c.span });
            },
            None => {
                let ghost before = m;
                m.push_case(union_name, c);
                let ghost next = cases@.subrange(0, i + 1);
                assert forall|j: int| 0 <= j < i + 1 implies #[trigger] m.models_case(union_name@, next[j], j) by {
                    if j < i {
                        assert(next[j] == cases@.subrange(0, i as int)[j]);
                        assert(before.models_case(union_name@, cases@.subrange(0, i as int)[j], j));
                    }
                }
                assert(m.models(union_name@, cases@.subrange(0, i + 1)));
            },
        }
        i = i + 1;
    }
    assert(cases@.subrange(0, i as int) =~= cases@);
    Ok(m)
}

/// The compile-time assertion `struct ___AssertNameU where T1: std::error::Error, ..;`,
/// one obligation per variant, each located at its payload type.
pub struct AssertionBlock {
    pub name: String,
    pub constraints: Vec<Piece>,
}

/// Everything that a derivation emits.
pub struct Generated {
    pub assertion: AssertionBlock,
    /// The `Debug` and `Display` impls.
    pub formatting: String,
    /// The `Error` impl.
    pub error_impl: String,
    /// One `From` impl per variant, located at its payload type.
    pub conversions: Vec<Piece>,
}

impl Generated {
    /// This is the output for the valid variants `cases` of enum `union_name`.
    pub open spec fn describes(self, union_name: Seq<char>, cases: Seq<Case>) -> bool {
        &&& self.assertion.name@ == ASSERT_PREFIX@ + union_name
        &&& self.assertion.constraints@.len() == cases.len()
        &&& self.conversions@.len() == cases.len()
        &&& forall|i: int| 0 <= i < cases.len() ==> #[trigger] self.describes_case(union_name, cases[i], i)
        &&& self.formatting@ == formatting_text(
            union_name,
            case_arms(union_name, cases, DEBUG_ACTION@),
            case_arms(union_name, cases, DISPLAY_ACTION@),
        )
        &&& self.error_impl@ == error_impl_text(
            union_name,
            case_arms(union_name, cases, DESCRIPTION_ACTION@),
            case_arms(union_name, cases, CAUSE_ACTION@),
            case_arms(union_name, cases, SOURCE_ACTION@),
        )
    }

    /// The obligation and the conversion at index `i` are those of `case`.
    pub open spec fn describes_case(self, union_name: Seq<char>, case: Case, i: int) -> bool {
        let ty = case.payload_type();
        &&& self.assertion.constraints@[i].text@ == constraint_text(ty.text@)
        &&& self.assertion.constraints@[i].span == Some(ty.span)
        &&& self.conversions@[i].text@ == conversion_text(union_name, case.name@, ty.text@)
        &&& self.conversions@[i].span == Some(ty.span)
    }
}

impl Generated {
    /// The output in the order in which the host emits it: the assertion block
    /// (header, one obligation per variant, closing `;`), the formatting impls,
    /// the `Error` impl and the conversions.
    pub fn into_pieces(self) -> (r: Vec<Piece>)
        ensures
            ({
                let n = self.assertion.constraints@.len() as int;
                &&& r@.len() == n + self.conversions@.len() + 4
                &&& r@[0].text@ == "struct "@ + self.assertion.name@ + " where "@
                &&& r@[0].span is None
                &&& r@.subrange(1, n + 1) == self.assertion.constraints@
                &&& r@[n + 1].text@ == "; "@
                &&& r@[n + 1].span is None
                &&& r@[n + 2].text@ == self.formatting@
                &&& r@[n + 2].span is None
                &&& r@[n + 3].text@ == self.error_impl@
                &&& r@[n + 3].span is None
                &&& r@.subrange(n + 4, r@.len() as int) == self.conversions@
            }),
    {
        let Generated { assertion, formatting, error_impl, conversions } = self;
        let AssertionBlock { name, constraints } = assertion;
        let ghost cs = constraints@;
        let ghost vs = conversions@;
        let mut constraints = constraints;
        let mut conversions = conversions;
        let mut r: Vec<Piece> = Vec::new();
        let mut head = String::from_str("struct ");
        head.append(name.as_str());
        head.append(" where ");
        r.push(Piece { text: head, span: None });
        r.append(&mut constraints);
        r.push(Piece { text: String::from_str("; "), span: None });
        r.push(Piece { text: formatting, span: None });
        r.push(Piece { text: error_impl, span: None });
        r.append(&mut conversions);
        assert(r@.subrange(1, cs.len() as int + 1) =~= cs);
        assert(r@.subrange(cs.len() as int + 4, r@.len() as int) =~= vs);
        r
    }
}

proof fn lemma_arms_of_cases(m: ShapeModel, union_name: Seq<char>, cases: Seq<Case>, action: Seq<char>)
    requires
        m.models(union_name, cases),
    ensures
        arms_text(m.arms@, action) == case_arms(union_name, cases, action),
    decreases cases.len(),
{
    if cases.len() > 0 {
        let prefix = m.arms@.drop_last();
        assert forall|i: int| 0 <= i < cases.len() - 1 implies prefix[i].case_name@ == cases.drop_last()[i].name@
            && prefix[i].union_name@ == union_name by {
            assert(m.models_case(union_name, cases[i], i));
        }
        assert(m.models_case(union_name, cases[cases.len() - 1], cases.len() - 1));
        lemma_arms_of_templates(prefix, union_name, cases.drop_last(), action);
    }
}

proof fn lemma_arms_of_templates(arms: Seq<ArmTemplate>, union_name: Seq<char>, cases: Seq<Case>, action: Seq<char>)
    requires
        arms.len() == cases.len(),
        forall|i: int| 0 <= i < cases.len() ==> arms[i].case_name@ == cases[i].name@ && arms[i].union_name@ == union_name,
    ensures
        arms_text(arms, action) == case_arms(union_name, cases, action),
    decreases cases.len(),
{
    if cases.len() > 0 {
        lemma_arms_of_templates(arms.drop_last(), union_name, cases.drop_last(), action);
        assert(arms[arms.len() - 1].case_name@ == cases[cases.len() - 1].name@);
    }
}

impl ShapeModel {
    /// Lays the gathered sequences out as the generated items: the arm templates
    /// are instantiated once per generated method.
    pub fn emit(self, union_name: &String) -> (g: Generated)
        ensures
            g.assertion.name@ == ASSERT_PREFIX@ + union_name@,
            g.assertion.constraints@ == self.checks@,
            g.conversions@ == self.conversions@,
            g.formatting@ == formatting_text(
                union_name@,
                arms_text(self.arms@, DEBUG_ACTION@),
                arms_text(self.arms@, DISPLAY_ACTION@),
            ),
            g.error_impl@ == error_impl_text(
                union_name@,
                arms_text(self.arms@, DESCRIPTION_ACTION@),
                arms_text(self.arms@, CAUSE_ACTION@),
                arms_text(self.arms@, SOURCE_ACTION@),
            ),
    {
        let mut name = String::from_str(ASSERT_PREFIX);
        name.append(union_name.as_str());

        let mut formatting = String::from_str("impl std::fmt::Debug for ");
        formatting.append(union_name.as_str());
        formatting.append(FMT_HEAD);
        formatting.append(render_arms(&self.arms, DEBUG_ACTION).as_str());
        formatting.append(MATCH_TAIL);
        formatting.append("} ");
        formatting.append("impl std::fmt::Display for ");
        formatting.append(union_name.as_str());
        formatting.append(FMT_HEAD);
        formatting.append(render_arms(&self.arms, DISPLAY_ACTION).as_str());
        formatting.append(MATCH_TAIL);
        formatting.append("} ");

        let mut error_impl = String::from_str("impl std::error::Error for ");
        error_impl.append(union_name.as_str());
        error_impl.append(DESCRIPTION_HEAD);
        error_impl.append(render_arms(&self.arms, DESCRIPTION_ACTION).as_str());
        error_impl.append(MATCH_TAIL);
        error_impl.append(CAUSE_HEAD);
        error_impl.append(render_arms(&self.arms, CAUSE_ACTION).as_str());
        error_impl.append(MATCH_TAIL);
        error_impl.append(SOURCE_HEAD);
        error_impl.append(render_arms(&self.arms, SOURCE_ACTION).as_str());
        error_impl.append(MATCH_TAIL);
        error_impl.append("} ");

        Generated {
            assertion: AssertionBlock { name, constraints: self.checks },
            formatting,
            error_impl,
            conversions: self.conversions,
        }
    }
}

/// What a derivation on `decl` returns: the first error of [`derive_failure`],
/// or, where there is none, the output for the enum's variants.
pub open spec fn derived(decl: Declaration, r: Result<Generated, DeriveError>) -> bool {
    match r {
        Ok(g) => derive_failure(decl) is None && match decl.body {
            Body::Enum(cases) => g.describes(decl.name@, cases@),
            _ => false,
        },
        Err(e) => derive_failure(decl) == Some(e),
    }
}

/// Derives `Debug`, `Display`, `Error` and one `From` per variant for an enum
/// whose variants each hold one positional error value.
pub fn derive_sum_error(decl: &Declaration) -> (r: Result<Generated, DeriveError>)
    ensures
        derived(*decl, r),
{
    match &decl.body {
        Body::Enum(cases) => match build_shape(&decl.name, cases) {
            Ok(m) => {
                proof {
                    lemma_arms_of_cases(m, decl.name@, cases@, DEBUG_ACTION@);
                    lemma_arms_of_cases(m, decl.name@, cases@, DISPLAY_ACTION@);
                    lemma_arms_of_cases(m, decl.name@, cases@, DESCRIPTION_ACTION@);
                    lemma_arms_of_cases(m, decl.name@, cases@, CAUSE_ACTION@);
                    lemma_arms_of_cases(m, decl.name@, cases@, SOURCE_ACTION@);
                }
                let ghost model = m;
                let g = m.emit(&decl.name);
                assert forall|i: int| 0 <= i < cases@.len() implies #[trigger] g.describes_case(decl.name@, cases@[i], i) by {
                    assert(model.models_case(decl.name@, cases@[i], i));
                }
                Ok(g)
            },
            Err(e) => Err(e),
        },
        _ => Err(DeriveError { kind: DeriveErrorKind::NotAUnion, span: decl.span }),
    }
}

} // verus!
