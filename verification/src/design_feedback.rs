//! The advice given on a visitor's cam design: one remark per criterion,
//! sorted into encouraging feedback and safety warnings, and the grade
//! labels.
use vstd::prelude::*;
use vstd::string::*;

verus! {

/// Where a design's husking rate falls: below 0.6, above 0.9, or between.
#[derive(Debug, Clone, Copy, PartialEq, Eq, Structural)]
pub enum HuskingBand {
    Low,
    Good,
    Excellent,
}

/// Where a design's breakage rate falls: above 0.15, below 0.05, or
/// between.
#[derive(Debug, Clone, Copy, PartialEq, Eq, Structural)]
pub enum BreakageBand {
    Excessive,
    Acceptable,
    Excellent,
}

/// Where a design's mean lift falls: below 0.02 m, above 0.25 m, or
/// between.
#[derive(Debug, Clone, Copy, PartialEq, Eq, Structural)]
pub enum LiftBand {
    TooSmall,
    Normal,
    TooLarge,
}

/// A design's grade, from its overall score.
#[derive(Debug, Clone, Copy, PartialEq, Eq, Structural)]
pub enum DesignGrade {
    S,
    A,
    B,
    C,
    D,
}

pub const MSG_CURVATURE_BAD: &'static str = "凸轮曲率半径过小，加工难度大且易磨损。";

pub const MSG_CURVATURE_GOOD: &'static str = "曲率半径符合加工要求。";

pub const MSG_JERK_BAD: &'static str = "加加速度(Jerk)过大，会产生剧烈冲击和噪音。";

pub const MSG_JERK_GOOD: &'static str = "运动平稳，冲击较小。";

pub const MSG_PRESSURE_BAD: &'static str = "压力角过大，传动效率低且易卡死。";

pub const MSG_PRESSURE_GOOD: &'static str = "压力角在合理范围内。";

pub const MSG_HUSKING_LOW: &'static str = "脱壳率偏低，可能需要增加升程或改进曲线形状。";

pub const MSG_HUSKING_EXCELLENT: &'static str = "脱壳率优秀！";

pub const MSG_HUSKING_GOOD: &'static str = "脱壳率良好。";

pub const MSG_BREAKAGE_EXCESSIVE: &'static str = "破碎率过高，谷物损失较大。";

pub const MSG_BREAKAGE_EXCELLENT: &'static str = "破碎率控制极佳！";

pub const MSG_BREAKAGE_ACCEPTABLE: &'static str = "破碎率在可接受范围。";

pub const MSG_LIFT_TOO_SMALL: &'static str = "升程太小，舂捣效果不佳。";

pub const MSG_LIFT_TOO_LARGE: &'static str = "升程过大，能耗高且可能损坏设备。";

/// The design assessment that the remarks are drawn from.
#[derive(Debug, Clone, Copy)]
pub struct DesignAssessment {
    pub curvature_ok: bool,
    pub jerk_ok: bool,
    pub pressure_angle_ok: bool,
    pub husking: HuskingBand,
    pub breakage: BreakageBand,
    pub lift: LiftBand,
}

/// The encouraging remarks on a design, in the order the criteria are
/// checked: curvature, jerk, pressure angle, husking, breakage.
pub open spec fn feedback_of(a: DesignAssessment) -> Seq<Seq<char>> {
    let s0 = Seq::<Seq<char>>::empty();
    let s1 = if a.curvature_ok {
        s0.push(MSG_CURVATURE_GOOD@)
    } else {
        s0
    };
    let s2 = if a.jerk_ok {
        s1.push(MSG_JERK_GOOD@)
    } else {
        s1
    };
    let s3 = if a.pressure_angle_ok {
        s2.push(MSG_PRESSURE_GOOD@)
    } else {
        s2
    };
    let s4 = match a.husking {
        HuskingBand::Low => s3,
        HuskingBand::Excellent => s3.push(MSG_HUSKING_EXCELLENT@),
        HuskingBand::Good => s3.push(MSG_HUSKING_GOOD@),
    };
    match a.breakage {
        BreakageBand::Excessive => s4,
        BreakageBand::Excellent => s4.push(MSG_BREAKAGE_EXCELLENT@),
        BreakageBand::Acceptable => s4.push(MSG_BREAKAGE_ACCEPTABLE@),
    }
}

/// The safety warnings on a design, in the order the criteria are checked:
/// curvature, jerk, pressure angle, husking, breakage, lift.
pub open spec fn warnings_of(a: DesignAssessment) -> Seq<Seq<char>> {
    let s0 = Seq::<Seq<char>>::empty();
    let s1 = if a.curvature_ok {
        s0
    } else {
        s0.push(MSG_CURVATURE_BAD@)
    };
    let s2 = if a.jerk_ok {
        s1
    } else {
        s1.push(MSG_JERK_BAD@)
    };
    let s3 = if a.pressure_angle_ok {
        s2
    } else {
        s2.push(MSG_PRESSURE_BAD@)
    };
    let s4 = match a.husking {
        HuskingBand::Low => s3.push(MSG_HUSKING_LOW@),
        _ => s3,
    };
    let s5 = match a.breakage {
        BreakageBand::Excessive => s4.push(MSG_BREAKAGE_EXCESSIVE@),
        _ => s4,
    };
    match a.lift {
        LiftBand::TooSmall => s5.push(MSG_LIFT_TOO_SMALL@),
        LiftBand::TooLarge => s5.push(MSG_LIFT_TOO_LARGE@),
        LiftBand::Normal => s5,
    }
}

pub open spec fn views(v: Seq<String>) -> Seq<Seq<char>> {
    v.map_values(|s: String| s@)
}

fn push_message(out: &mut Vec<String>, m: &str)
    ensures
        views(final(out)@) == views(old(out)@).push(m@),
{
    out.push(m.to_owned());
    assert(views(out@) =~= views(old(out)@).push(m@));
}

/// The remarks on a design: `(feedback, warnings)`.
pub fn design_feedback(a: DesignAssessment) -> (r: (Vec<String>, Vec<String>))
    ensures
        views(r.0@) == feedback_of(a),
        views(r.1@) == warnings_of(a),
{
    let mut feedback: Vec<String> = Vec::new();
    let mut warnings: Vec<String> = Vec::new();
    assert(views(feedback@) =~= Seq::<Seq<char>>::empty());
    assert(views(warnings@) =~= Seq::<Seq<char>>::empty());
    if !a.curvature_ok {
        push_message(&mut warnings, MSG_CURVATURE_BAD);
    } else {
        push_message(&mut feedback, MSG_CURVATURE_GOOD);
    }
    if !a.jerk_ok {
        push_message(&mut warnings, MSG_JERK_BAD);
    } else {
        push_message(&mut feedback, MSG_JERK_GOOD);
    }
    if !a.pressure_angle_ok {
        push_message(&mut warnings, MSG_PRESSURE_BAD);
    } else {
        push_message(&mut feedback, MSG_PRESSURE_GOOD);
    }
    match a.husking {
        HuskingBand::Low => push_message(&mut warnings, MSG_HUSKING_LOW),
        HuskingBand::Excellent => push_message(&mut feedback, MSG_HUSKING_EXCELLENT),
        HuskingBand::Good => push_message(&mut feedback, MSG_HUSKING_GOOD),
    }
    match a.breakage {
        BreakageBand::Excessive => push_message(&mut warnings, MSG_BREAKAGE_EXCESSIVE),
        BreakageBand::Excellent => push_message(&mut feedback, MSG_BREAKAGE_EXCELLENT),
        BreakageBand::Acceptable => push_message(&mut feedback, MSG_BREAKAGE_ACCEPTABLE),
    }
    match a.lift {
        LiftBand::TooSmall => push_message(&mut warnings, MSG_LIFT_TOO_SMALL),
        LiftBand::TooLarge => push_message(&mut warnings, MSG_LIFT_TOO_LARGE),
        LiftBand::Normal => {},
    }
    (feedback, warnings)
}

/// Each of the five rated criteria yields exactly one remark, feedback or
/// warning, and a lift out of range adds one more warning; so a design with
/// too small a lift always gets a warning.
pub proof fn lemma_one_remark_per_criterion(a: DesignAssessment)
    ensures
        feedback_of(a).len() + warnings_of(a).len() == 5 + if a.lift == LiftBand::Normal {
            0int
        } else {
            1int
        },
        a.lift == LiftBand::TooSmall ==> warnings_of(a).len() > 0,
        a.curvature_ok && a.jerk_ok && a.pressure_angle_ok && a.husking != HuskingBand::Low
            && a.breakage != BreakageBand::Excessive && a.lift == LiftBand::Normal
            <==> warnings_of(a).len() == 0,
{
}

/// The lengths of the remark texts; the praise is never longer than eleven
/// characters and every warning is longer, and texts of one length differ.
proof fn lemma_message_texts()
    ensures
        MSG_CURVATURE_BAD@.len() == 19,
        MSG_CURVATURE_GOOD@.len() == 11,
        MSG_JERK_BAD@.len() == 24,
        MSG_JERK_GOOD@.len() == 10,
        MSG_PRESSURE_BAD@.len() == 16,
        MSG_PRESSURE_GOOD@.len() == 10,
        MSG_HUSKING_LOW@.len() == 22,
        MSG_HUSKING_EXCELLENT@.len() == 6,
        MSG_HUSKING_GOOD@.len() == 6,
        MSG_BREAKAGE_EXCESSIVE@.len() == 13,
        MSG_BREAKAGE_EXCELLENT@.len() == 8,
        MSG_BREAKAGE_ACCEPTABLE@.len() == 10,
        MSG_LIFT_TOO_SMALL@.len() == 12,
        MSG_LIFT_TOO_LARGE@.len() == 16,
        MSG_JERK_GOOD@ != MSG_PRESSURE_GOOD@,
        MSG_JERK_GOOD@ != MSG_BREAKAGE_ACCEPTABLE@,
        MSG_PRESSURE_GOOD@ != MSG_BREAKAGE_ACCEPTABLE@,
        MSG_HUSKING_EXCELLENT@ != MSG_HUSKING_GOOD@,
        MSG_PRESSURE_BAD@ != MSG_LIFT_TOO_LARGE@,
{
    reveal_strlit("凸轮曲率半径过小，加工难度大且易磨损。");
    reveal_strlit("曲率半径符合加工要求。");
    reveal_strlit("加加速度(Jerk)过大，会产生剧烈冲击和噪音。");
    reveal_strlit("运动平稳，冲击较小。");
    reveal_strlit("压力角过大，传动效率低且易卡死。");
    reveal_strlit("压力角在合理范围内。");
    reveal_strlit("脱壳率偏低，可能需要增加升程或改进曲线形状。");
    reveal_strlit("脱壳率优秀！");
    reveal_strlit("脱壳率良好。");
    reveal_strlit("破碎率过高，谷物损失较大。");
    reveal_strlit("破碎率控制极佳！");
    reveal_strlit("破碎率在可接受范围。");
    reveal_strlit("升程太小，舂捣效果不佳。");
    reveal_strlit("升程过大，能耗高且可能损坏设备。");
    assert(MSG_JERK_GOOD@[0] != MSG_PRESSURE_GOOD@[0]);
    assert(MSG_JERK_GOOD@[0] != MSG_BREAKAGE_ACCEPTABLE@[0]);
    assert(MSG_PRESSURE_GOOD@[0] != MSG_BREAKAGE_ACCEPTABLE@[0]);
    assert(MSG_HUSKING_EXCELLENT@[3] != MSG_HUSKING_GOOD@[3]);
    assert(MSG_PRESSURE_BAD@[0] != MSG_LIFT_TOO_LARGE@[0]);
}

/// Praise is at most eleven characters long and every warning is longer.
proof fn lemma_remark_lengths(a: DesignAssessment)
    ensures
        forall|m: Seq<char>| #[trigger] feedback_of(a).contains(m) ==> m.len() <= 11,
        forall|m: Seq<char>| #[trigger] warnings_of(a).contains(m) ==> m.len() >= 12,
{
    broadcast use vstd::seq_lib::group_seq_properties;
    lemma_message_texts();
}

/// Every remark follows its own criterion: the praise for a criterion is
/// among the feedback, and the warning for it among the warnings, exactly
/// when the design meets, or fails, that criterion; no remark is both
/// praise and warning.
pub proof fn lemma_each_remark_follows_its_criterion(a: DesignAssessment)
    ensures
        warnings_of(a).contains(MSG_CURVATURE_BAD@) <==> !a.curvature_ok,
        feedback_of(a).contains(MSG_CURVATURE_GOOD@) <==> a.curvature_ok,
        warnings_of(a).contains(MSG_JERK_BAD@) <==> !a.jerk_ok,
        feedback_of(a).contains(MSG_JERK_GOOD@) <==> a.jerk_ok,
        warnings_of(a).contains(MSG_PRESSURE_BAD@) <==> !a.pressure_angle_ok,
        feedback_of(a).contains(MSG_PRESSURE_GOOD@) <==> a.pressure_angle_ok,
        warnings_of(a).contains(MSG_HUSKING_LOW@) <==> a.husking == HuskingBand::Low,
        feedback_of(a).contains(MSG_HUSKING_EXCELLENT@) <==> a.husking == HuskingBand::Excellent,
        feedback_of(a).contains(MSG_HUSKING_GOOD@) <==> a.husking == HuskingBand::Good,
        warnings_of(a).contains(MSG_BREAKAGE_EXCESSIVE@) <==> a.breakage == BreakageBand::Excessive,
        feedback_of(a).contains(MSG_BREAKAGE_EXCELLENT@) <==> a.breakage == BreakageBand::Excellent,
        feedback_of(a).contains(MSG_BREAKAGE_ACCEPTABLE@) <==> a.breakage == BreakageBand::Acceptable,
        warnings_of(a).contains(MSG_LIFT_TOO_SMALL@) <==> a.lift == LiftBand::TooSmall,
        warnings_of(a).contains(MSG_LIFT_TOO_LARGE@) <==> a.lift == LiftBand::TooLarge,
        forall|m: Seq<char>| !(#[trigger] feedback_of(a).contains(m) && warnings_of(a).contains(m)),
{
    broadcast use vstd::seq_lib::group_seq_properties;
    lemma_message_texts();
    lemma_remark_lengths(a);
}

/// The position of the criterion a praise remark is about, in the order
/// the criteria are checked: curvature, jerk, pressure angle, husking,
/// breakage.
pub open spec fn praise_rank(m: Seq<char>) -> int {
    if m == MSG_CURVATURE_GOOD@ {
        0
    } else if m == MSG_JERK_GOOD@ {
        1
    } else if m == MSG_PRESSURE_GOOD@ {
        2
    } else if m == MSG_HUSKING_EXCELLENT@ || m == MSG_HUSKING_GOOD@ {
        3
    } else {
        4
    }
}

/// The position of the criterion a warning is about, in the order the
/// criteria are checked: curvature, jerk, pressure angle, husking,
/// breakage, lift.
pub open spec fn warning_rank(m: Seq<char>) -> int {
    if m == MSG_CURVATURE_BAD@ {
        0
    } else if m == MSG_JERK_BAD@ {
        1
    } else if m == MSG_PRESSURE_BAD@ {
        2
    } else if m == MSG_HUSKING_LOW@ {
        3
    } else if m == MSG_BREAKAGE_EXCESSIVE@ {
        4
    } else {
        5
    }
}

/// Both lists follow the order in which the criteria are checked, one
/// remark per criterion at most.
pub proof fn lemma_remarks_in_criterion_order(a: DesignAssessment)
    ensures
        forall|i: int, j: int|
            0 <= i < j < feedback_of(a).len() ==> praise_rank(#[trigger] feedback_of(a)[i])
                < praise_rank(#[trigger] feedback_of(a)[j]),
        forall|i: int, j: int|
            0 <= i < j < warnings_of(a).len() ==> warning_rank(#[trigger] warnings_of(a)[i])
                < warning_rank(#[trigger] warnings_of(a)[j]),
{
    lemma_message_texts();
}

pub open spec fn grade_label(g: DesignGrade) -> Seq<char> {
    match g {
        DesignGrade::S => "S级 - 大师级设计"@,
        DesignGrade::A => "A级 - 优秀设计"@,
        DesignGrade::B => "B级 - 良好设计"@,
        DesignGrade::C => "C级 - 合格设计"@,
        DesignGrade::D => "D级 - 需要改进"@,
    }
}

impl DesignGrade {
    pub fn label(&self) -> (s: &'static str)
        ensures
            s@ == grade_label(*self),
    {
        match self {
            DesignGrade::S => "S级 - 大师级设计",
            DesignGrade::A => "A级 - 优秀设计",
            DesignGrade::B => "B级 - 良好设计",
            DesignGrade::C => "C级 - 合格设计",
            DesignGrade::D => "D级 - 需要改进",
        }
    }
}

} // verus!
