use proc_macro2::Span;
use sum_error::{
    build_shape, derive_sum_error, render_arms, ArmTemplate, Body, Case, Declaration, DeriveErrorKind,
    Payload, TypeRef,
};

fn ty(text: &str) -> TypeRef {
    TypeRef { text: text.to_string(), span: Span::call_site() }
}

fn case(name: &str, payload: Payload) -> Case {
    Case { name: name.to_string(), span: Span::call_site(), payload }
}

fn enum_decl(name: &str, cases: Vec<Case>) -> Declaration {
    Declaration { name: name.to_string(), span: Span::call_site(), body: Body::Enum(cases) }
}

fn single(name: &str, t: &str) -> Case {
    case(name, Payload::Positional(vec![ty(t)]))
}

fn whole_text(decl: &Declaration) -> String {
    let g = derive_sum_error(decl).ok().expect("derivation succeeds");
    g.into_pieces().iter().map(|p| p.text.clone()).collect::<Vec<_>>().join("")
}

#[test]
fn union_a_debug_arm_renders_payload_debug() {
    let decl = enum_decl("A", vec![single("A", "IoErrorLike")]);
    let g = derive_sum_error(&decl).ok().expect("derivation succeeds");
    assert_eq!(
        g.formatting,
        "impl std::fmt::Debug for A { fn fmt(&self, f: &mut std::fmt::Formatter<'_>) -> std::fmt::Result { \
         match self { A::A(error) => write!(f, \"{:?}\", error), } } } \
         impl std::fmt::Display for A { fn fmt(&self, f: &mut std::fmt::Formatter<'_>) -> std::fmt::Result { \
         match self { A::A(error) => write!(f, \"{}\", error), } } } "
    );
    assert_eq!(
        g.error_impl,
        "impl std::error::Error for A { fn description(&self) -> &str { match self { \
         A::A(error) => error.description(), } } \
         fn cause(&self) -> Option<&dyn std::error::Error> { match self { A::A(error) => Some(error), } } \
         fn source(&self) -> Option<&(dyn std::error::Error + 'static)> { match self { A::A(error) => Some(error), } } } "
    );
    assert_eq!(g.assertion.name, "___AssertNameA");
    assert_eq!(g.assertion.constraints.len(), 1);
    assert_eq!(g.assertion.constraints[0].text, "IoErrorLike: std::error::Error, ");
    assert!(g.assertion.constraints[0].span.is_some());
}

#[test]
fn union_b_named_field_is_refused() {
    let decl = enum_decl("B", vec![case("B", Payload::Named(vec![ty("IoErrorLike")]))]);
    let e = derive_sum_error(&decl).err().expect("derivation fails");
    assert_eq!(e.kind, DeriveErrorKind::NamedPayloadNotAllowed);
    assert_eq!(e.message(), "Contained in variants errors should be unnamed!");
}

#[test]
fn union_c_two_payloads_is_refused() {
    let decl = enum_decl("C", vec![case("C", Payload::Positional(vec![ty("IoErrorLike"), ty("ImageErrorLike")]))]);
    let e = derive_sum_error(&decl).err().expect("derivation fails");
    assert_eq!(e.kind, DeriveErrorKind::InvalidArity);
    assert_eq!(
        e.message(),
        "Invalid number of contained errors! Only one error allowed in any enum variant!"
    );
}

#[test]
fn unit_variant_is_refused_for_arity() {
    let decl = enum_decl("D", vec![single("Ok", "IoErrorLike"), case("Empty", Payload::Unit)]);
    let e = derive_sum_error(&decl).err().expect("derivation fails");
    assert_eq!(e.kind, DeriveErrorKind::InvalidArity);
}

#[test]
fn struct_is_not_a_union() {
    let decl = Declaration { name: "S".to_string(), span: Span::call_site(), body: Body::Struct };
    let e = derive_sum_error(&decl).err().expect("derivation fails");
    assert_eq!(e.kind, DeriveErrorKind::NotAUnion);
    assert_eq!(e.message(), "Deriving from SumError is only available for enums of errors!");
}

#[test]
fn raw_union_is_not_a_union() {
    let decl = Declaration { name: "U".to_string(), span: Span::call_site(), body: Body::Union };
    let e = derive_sum_error(&decl).err().expect("derivation fails");
    assert_eq!(e.kind, DeriveErrorKind::NotAUnion);
}

#[test]
fn first_invalid_variant_decides_the_error() {
    let decl = enum_decl(
        "E",
        vec![
            single("Good", "IoErrorLike"),
            case("Named", Payload::Named(vec![ty("IoErrorLike")])),
            case("Two", Payload::Positional(vec![ty("A"), ty("B")])),
        ],
    );
    let e = derive_sum_error(&decl).err().expect("derivation fails");
    assert_eq!(e.kind, DeriveErrorKind::NamedPayloadNotAllowed);
}

#[test]
fn named_fields_of_any_count_are_refused_as_named() {
    let decl = enum_decl("E", vec![case("Two", Payload::Named(vec![ty("A"), ty("B")]))]);
    assert_eq!(derive_sum_error(&decl).err().unwrap().kind, DeriveErrorKind::NamedPayloadNotAllowed);
    let decl = enum_decl("E", vec![case("None", Payload::Named(vec![]))]);
    assert_eq!(derive_sum_error(&decl).err().unwrap().kind, DeriveErrorKind::NamedPayloadNotAllowed);
}

#[test]
fn one_conversion_and_obligation_per_variant() {
    let decl = enum_decl(
        "CombineError",
        vec![
            single("FileError", "std::io::Error"),
            single("ImageError", "image::ImageError"),
            single("GfxError", "gfx_texture::Error"),
        ],
    );
    let g = derive_sum_error(&decl).ok().expect("derivation succeeds");
    assert_eq!(g.assertion.constraints.len(), 3);
    assert_eq!(g.conversions.len(), 3);
    assert_eq!(g.assertion.constraints[1].text, "image::ImageError: std::error::Error, ");
    assert_eq!(
        g.conversions[2].text,
        "impl From<gfx_texture::Error> for CombineError { fn from(error: gfx_texture::Error) -> Self { \
         CombineError::GfxError(error) } }"
    );
    assert_eq!(g.into_pieces().len(), 3 + 3 + 4);
}

#[test]
fn empty_enum_derives_empty_matches() {
    let decl = enum_decl("Never", vec![]);
    let g = derive_sum_error(&decl).ok().expect("derivation succeeds");
    assert_eq!(g.conversions.len(), 0);
    assert!(g.formatting.contains("match self { } "));
    assert!(syn::parse_file(&whole_text(&decl)).is_ok());
}

#[test]
fn derivation_is_deterministic() {
    let decl = enum_decl("A", vec![single("Io", "IoErrorLike"), single("Img", "ImageErrorLike")]);
    assert_eq!(whole_text(&decl), whole_text(&decl));
}

#[test]
fn conversion_builds_the_matched_variant() {
    let decl = enum_decl("A", vec![single("Io", "IoErrorLike"), single("Img", "ImageErrorLike")]);
    let g = derive_sum_error(&decl).ok().expect("derivation succeeds");
    assert_eq!(
        g.conversions[0].text,
        "impl From<IoErrorLike> for A { fn from(error: IoErrorLike) -> Self { A::Io(error) } }"
    );
    assert!(g.formatting.contains("A::Io(error) => write!(f, \"{:?}\", error), "));
    assert!(g.formatting.contains("A::Img(error) => write!(f, \"{:?}\", error), "));
}

#[test]
fn generated_text_is_valid_rust() {
    let decl = enum_decl("A", vec![single("Io", "std::io::Error"), single("Fmt", "std::fmt::Error")]);
    let text = whole_text(&decl);
    assert!(text.starts_with("struct ___AssertNameA where std::io::Error: std::error::Error, "));
    let file = syn::parse_file(&text).expect("generated code parses");
    assert_eq!(file.items.len(), 1 + 2 + 1 + 2);
}

#[test]
fn arm_template_instantiates_action() {
    let arm = ArmTemplate { union_name: "U".to_string(), case_name: "V".to_string() };
    assert_eq!(arm.instantiate("Some(error)"), "U::V(error) => Some(error), ");
    let arms = vec![arm, ArmTemplate { union_name: "U".to_string(), case_name: "W".to_string() }];
    assert_eq!(render_arms(&arms, "x"), "U::V(error) => x, U::W(error) => x, ");
}

#[test]
fn shape_model_stays_aligned_with_variants() {
    let cases = vec![single("Io", "IoErrorLike"), single("Img", "ImageErrorLike")];
    let m = build_shape(&"A".to_string(), &cases).ok().expect("valid variants");
    assert_eq!(m.checks.len(), 2);
    assert_eq!(m.arms[1].case_name, "Img");
    assert_eq!(m.checks[1].text, "ImageErrorLike: std::error::Error, ");
    assert_eq!(m.conversions.len(), 2);
}

#[test]
fn case_check_reports_fault() {
    assert_eq!(single("A", "T").check(), None);
    assert_eq!(case("A", Payload::Unit).check(), Some(DeriveErrorKind::InvalidArity));
}
