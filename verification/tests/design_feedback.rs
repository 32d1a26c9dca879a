use shuidui::design_feedback::{
    design_feedback, BreakageBand, DesignAssessment, DesignGrade, HuskingBand, LiftBand,
};

fn good() -> DesignAssessment {
    DesignAssessment {
        curvature_ok: true,
        jerk_ok: true,
        pressure_angle_ok: true,
        husking: HuskingBand::Good,
        breakage: BreakageBand::Acceptable,
        lift: LiftBand::Normal,
    }
}

#[test]
fn feedback_for_a_sound_design() {
    let (feedback, warnings) = design_feedback(good());
    assert_eq!(
        feedback,
        vec![
            "曲率半径符合加工要求。",
            "运动平稳，冲击较小。",
            "压力角在合理范围内。",
            "脱壳率良好。",
            "破碎率在可接受范围。",
        ]
    );
    assert!(warnings.is_empty());
}

#[test]
fn warnings_for_a_poor_design() {
    let a = DesignAssessment {
        curvature_ok: false,
        jerk_ok: false,
        pressure_angle_ok: false,
        husking: HuskingBand::Low,
        breakage: BreakageBand::Excessive,
        lift: LiftBand::TooLarge,
    };
    let (feedback, warnings) = design_feedback(a);
    assert!(feedback.is_empty());
    assert_eq!(
        warnings,
        vec![
            "凸轮曲率半径过小，加工难度大且易磨损。",
            "加加速度(Jerk)过大，会产生剧烈冲击和噪音。",
            "压力角过大，传动效率低且易卡死。",
            "脱壳率偏低，可能需要增加升程或改进曲线形状。",
            "破碎率过高，谷物损失较大。",
            "升程过大，能耗高且可能损坏设备。",
        ]
    );
}

#[test]
fn zero_lift_design_gets_a_warning() {
    let a = DesignAssessment { lift: LiftBand::TooSmall, ..good() };
    let (feedback, warnings) = design_feedback(a);
    assert_eq!(feedback.len(), 5);
    assert_eq!(warnings, vec!["升程太小，舂捣效果不佳。"]);
}

#[test]
fn excellent_rates_are_praised() {
    let a = DesignAssessment {
        husking: HuskingBand::Excellent,
        breakage: BreakageBand::Excellent,
        ..good()
    };
    let (feedback, _) = design_feedback(a);
    assert_eq!(feedback[3], "脱壳率优秀！");
    assert_eq!(feedback[4], "破碎率控制极佳！");
}

#[test]
fn grade_labels() {
    assert_eq!(DesignGrade::S.label(), "S级 - 大师级设计");
    assert_eq!(DesignGrade::A.label(), "A级 - 优秀设计");
    assert_eq!(DesignGrade::B.label(), "B级 - 良好设计");
    assert_eq!(DesignGrade::C.label(), "C级 - 合格设计");
    assert_eq!(DesignGrade::D.label(), "D级 - 需要改进");
    for g in [DesignGrade::S, DesignGrade::A, DesignGrade::B, DesignGrade::C, DesignGrade::D] {
        assert!(g.label().contains('级'));
    }
}
