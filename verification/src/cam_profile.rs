//! Cam profile types: which motion law a profile-type name selects, and the
//! Chinese display names of the types.
use crate::text::text_eq;
use vstd::prelude::*;

verus! {

/// The motion laws a cam curve can follow.
#[derive(Debug, Clone, Copy, PartialEq, Eq, Structural)]
pub enum CamProfileKind {
    Cycloidal,
    Harmonic,
    Trapezoidal,
    Polynomial,
    Involute,
    CircularArc,
}

/// The motion law the standard profile generator uses for a type name:
/// the four standard types by name, simple harmonic motion otherwise.
pub open spec fn standard_kind_of(name: Seq<char>) -> CamProfileKind {
    if name == "cycloidal"@ {
        CamProfileKind::Cycloidal
    } else if name == "harmonic"@ {
        CamProfileKind::Harmonic
    } else if name == "trapezoidal"@ {
        CamProfileKind::Trapezoidal
    } else if name == "polynomial"@ {
        CamProfileKind::Polynomial
    } else {
        CamProfileKind::Harmonic
    }
}

/// The motion law the extended profile generator uses for a type name:
/// the standard types, the involute and the circular-arc cam by name,
/// simple harmonic motion otherwise.
pub open spec fn extended_kind_of(name: Seq<char>) -> CamProfileKind {
    if name == "involute"@ {
        CamProfileKind::Involute
    } else if name == "circular_arc"@ {
        CamProfileKind::CircularArc
    } else {
        standard_kind_of(name)
    }
}

/// The display name a profile type gets from the optimiser.
pub open spec fn profile_name_cn(name: Seq<char>) -> Seq<char> {
    if name == "cycloidal"@ {
        "摆线凸轮"@
    } else if name == "harmonic"@ {
        "简谐凸轮"@
    } else if name == "trapezoidal"@ {
        "梯形加速度凸轮"@
    } else if name == "polynomial"@ {
        "3-4-5多项式凸轮"@
    } else if name == "involute"@ {
        "渐开线凸轮"@
    } else if name == "circular_arc"@ {
        "圆弧凸轮"@
    } else {
        "未知类型"@
    }
}

/// The display name a profile type gets in a multi-profile comparison,
/// whose name table knows five types (not the trapezoidal one).
pub open spec fn comparison_name_cn(name: Seq<char>) -> Seq<char> {
    if name == "cycloidal"@ {
        "摆线凸轮"@
    } else if name == "harmonic"@ {
        "简谐凸轮"@
    } else if name == "polynomial"@ {
        "3-4-5次多项式凸轮"@
    } else if name == "involute"@ {
        "渐开线凸轮"@
    } else if name == "circular_arc"@ {
        "圆弧凸轮"@
    } else {
        "未知类型"@
    }
}

pub fn standard_profile_kind(profile_type: &str) -> (k: CamProfileKind)
    ensures
        k == standard_kind_of(profile_type@),
{
    if text_eq(profile_type, "cycloidal") {
        CamProfileKind::Cycloidal
    } else if text_eq(profile_type, "harmonic") {
        CamProfileKind::Harmonic
    } else if text_eq(profile_type, "trapezoidal") {
        CamProfileKind::Trapezoidal
    } else if text_eq(profile_type, "polynomial") {
        CamProfileKind::Polynomial
    } else {
        CamProfileKind::Harmonic
    }
}

pub fn extended_profile_kind(profile_type: &str) -> (k: CamProfileKind)
    ensures
        k == extended_kind_of(profile_type@),
{
    if text_eq(profile_type, "involute") {
        CamProfileKind::Involute
    } else if text_eq(profile_type, "circular_arc") {
        CamProfileKind::CircularArc
    } else {
        standard_profile_kind(profile_type)
    }
}

pub fn get_profile_name_cn(profile_type: &str) -> (name: &'static str)
    ensures
        name@ == profile_name_cn(profile_type@),
{
    if text_eq(profile_type, "cycloidal") {
        "摆线凸轮"
    } else if text_eq(profile_type, "harmonic") {
        "简谐凸轮"
    } else if text_eq(profile_type, "trapezoidal") {
        "梯形加速度凸轮"
    } else if text_eq(profile_type, "polynomial") {
        "3-4-5多项式凸轮"
    } else if text_eq(profile_type, "involute") {
        "渐开线凸轮"
    } else if text_eq(profile_type, "circular_arc") {
        "圆弧凸轮"
    } else {
        "未知类型"
    }
}

pub fn comparison_profile_name_cn(profile_type: &str) -> (name: &'static str)
    ensures
        name@ == comparison_name_cn(profile_type@),
{
    if text_eq(profile_type, "cycloidal") {
        "摆线凸轮"
    } else if text_eq(profile_type, "harmonic") {
        "简谐凸轮"
    } else if text_eq(profile_type, "polynomial") {
        "3-4-5次多项式凸轮"
    } else if text_eq(profile_type, "involute") {
        "渐开线凸轮"
    } else if text_eq(profile_type, "circular_arc") {
        "圆弧凸轮"
    } else {
        "未知类型"
    }
}

/// The extended generator reads every name other than the two extra cam
/// types exactly as the standard generator does, and the two extra names
/// are not standard types.
pub proof fn lemma_extended_agrees_with_standard(name: Seq<char>)
    ensures
        name != "involute"@ && name != "circular_arc"@ ==> extended_kind_of(name)
            == standard_kind_of(name),
        standard_kind_of("involute"@) == CamProfileKind::Harmonic,
        standard_kind_of("circular_arc"@) == CamProfileKind::Harmonic,
{
    reveal_strlit("involute");
    reveal_strlit("circular_arc");
    reveal_strlit("cycloidal");
    reveal_strlit("harmonic");
    reveal_strlit("trapezoidal");
    reveal_strlit("polynomial");
    assert("involute"@.len() == 8 && "harmonic"@.len() == 8);
    assert("involute"@[0] != "harmonic"@[0]);
    assert("circular_arc"@.len() == 12);
    assert("cycloidal"@.len() == 9 && "trapezoidal"@.len() == 11 && "polynomial"@.len() == 10);
}

/// A profile type has a known display name exactly when the extended
/// generator recognises it by name (rather than falling back).
pub proof fn lemma_named_types_are_recognised(name: Seq<char>)
    ensures
        (profile_name_cn(name) != "未知类型"@) <==> (name == "cycloidal"@ || name == "harmonic"@
            || name == "trapezoidal"@ || name == "polynomial"@ || name == "involute"@ || name
            == "circular_arc"@),
{
    reveal_strlit("未知类型");
    reveal_strlit("摆线凸轮");
    reveal_strlit("简谐凸轮");
    reveal_strlit("梯形加速度凸轮");
    reveal_strlit("3-4-5多项式凸轮");
    reveal_strlit("渐开线凸轮");
    reveal_strlit("圆弧凸轮");
    let unknown = "未知类型"@;
    assert(unknown.len() == 4);
    assert("摆线凸轮"@[0] != unknown[0]);
    assert("简谐凸轮"@[0] != unknown[0]);
    assert("梯形加速度凸轮"@.len() == 7);
    assert("3-4-5多项式凸轮"@.len() == 10);
    assert("渐开线凸轮"@.len() == 5);
    assert("圆弧凸轮"@[0] != unknown[0]);
}

/// The comparison shows every profile type under the optimiser's display
/// name, except the two on which their name tables differ: the trapezoidal
/// type, which the comparison does not know, and the polynomial one, which
/// it names with the word for "degree".
pub proof fn lemma_comparison_names_agree_with_optimiser(name: Seq<char>)
    ensures
        name != "trapezoidal"@ && name != "polynomial"@ ==> comparison_name_cn(name)
            == profile_name_cn(name),
        comparison_name_cn("trapezoidal"@) == "未知类型"@,
{
    reveal_strlit("involute");
    reveal_strlit("circular_arc");
    reveal_strlit("cycloidal");
    reveal_strlit("harmonic");
    reveal_strlit("trapezoidal");
    reveal_strlit("polynomial");
    assert("involute"@.len() == 8 && "harmonic"@.len() == 8);
    assert("involute"@[0] != "harmonic"@[0]);
    assert("circular_arc"@.len() == 12);
    assert("cycloidal"@.len() == 9 && "trapezoidal"@.len() == 11 && "polynomial"@.len() == 10);
}

} // verus!
