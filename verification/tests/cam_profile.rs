use shuidui::cam_profile::{
    comparison_profile_name_cn, extended_profile_kind, get_profile_name_cn,
    standard_profile_kind, CamProfileKind,
};

#[test]
fn standard_profile_types() {
    assert_eq!(standard_profile_kind("cycloidal"), CamProfileKind::Cycloidal);
    assert_eq!(standard_profile_kind("harmonic"), CamProfileKind::Harmonic);
    assert_eq!(standard_profile_kind("trapezoidal"), CamProfileKind::Trapezoidal);
    assert_eq!(standard_profile_kind("polynomial"), CamProfileKind::Polynomial);
    assert_eq!(standard_profile_kind("involute"), CamProfileKind::Harmonic);
    assert_eq!(standard_profile_kind("unknown_type_xyz"), CamProfileKind::Harmonic);
}

#[test]
fn extended_profile_types() {
    assert_eq!(extended_profile_kind("involute"), CamProfileKind::Involute);
    assert_eq!(extended_profile_kind("circular_arc"), CamProfileKind::CircularArc);
    assert_eq!(extended_profile_kind("cycloidal"), CamProfileKind::Cycloidal);
    assert_eq!(extended_profile_kind("Cycloidal"), CamProfileKind::Harmonic);
    assert_eq!(extended_profile_kind(""), CamProfileKind::Harmonic);
}

#[test]
fn optimiser_profile_names() {
    assert_eq!(get_profile_name_cn("cycloidal"), "摆线凸轮");
    assert_eq!(get_profile_name_cn("harmonic"), "简谐凸轮");
    assert_eq!(get_profile_name_cn("trapezoidal"), "梯形加速度凸轮");
    assert_eq!(get_profile_name_cn("polynomial"), "3-4-5多项式凸轮");
    assert_eq!(get_profile_name_cn("involute"), "渐开线凸轮");
    assert_eq!(get_profile_name_cn("circular_arc"), "圆弧凸轮");
    assert_eq!(get_profile_name_cn("unknown_type_xyz"), "未知类型");
}

#[test]
fn comparison_profile_names() {
    assert_eq!(comparison_profile_name_cn("cycloidal"), "摆线凸轮");
    assert_eq!(comparison_profile_name_cn("polynomial"), "3-4-5次多项式凸轮");
    assert_eq!(comparison_profile_name_cn("circular_arc"), "圆弧凸轮");
    assert_eq!(comparison_profile_name_cn("trapezoidal"), "未知类型");
    assert_eq!(comparison_profile_name_cn("unknown_type_xyz"), "未知类型");
    for t in ["cycloidal", "harmonic", "involute", "circular_arc"] {
        assert!(!comparison_profile_name_cn(t).is_empty());
    }
}
