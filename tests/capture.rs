use dataset_generator::capture::{
    is_effect_mesh, screenshot_path, CaptureAction, CaptureConfig, CapturePhase, CaptureState, PresetCounts,
    AYATO, BOY_HEIGHT_OFFSET, DEFAULT_CHARACTER_SCALE, DEFAULT_SAMPLE_BUDGET, F32_MINUS_TEN,
    F32_TEN, ITTO, LADY_HEIGHT_OFFSET, LOLI_HEIGHT_OFFSET, MALE_HEIGHT_OFFSET,
};
use dataset_generator::cel_material::Vector3;

const READY: Option<PresetCounts> = Some(PresetCounts { cameras: 2, lights: 2 });

fn config(names: &[&str], budget: usize) -> CaptureConfig {
    CaptureConfig::new(names.iter().map(|s| s.to_string()).collect(), budget)
}

/// Runs the loop until it is done, returning the screenshot paths in order,
/// with the diffuse-only flag of each, and the number of steps taken.
fn run(cfg: &CaptureConfig, state: &mut CaptureState) -> (Vec<(String, bool)>, usize) {
    let mut shots = Vec::new();
    let mut steps = 0;
    while state.phase != CapturePhase::Done {
        steps += 1;
        assert!(steps < 100_000);
        if let CaptureAction::Screenshot { diffuse_only, character_index, frame_index } =
            state.step(cfg, READY)
        {
            shots.push((screenshot_path(character_index, frame_index), diffuse_only));
        }
    }
    (shots, steps)
}

#[test]
fn capture_float_constants_match_their_values() {
    assert_eq!(f32::from_bits(DEFAULT_CHARACTER_SCALE), 100.0);
    assert_eq!(f32::from_bits(F32_TEN), 10.0);
    assert_eq!(f32::from_bits(F32_MINUS_TEN), -10.0);
    assert_eq!(f32::from_bits(LADY_HEIGHT_OFFSET), 0.15);
    assert_eq!(f32::from_bits(LOLI_HEIGHT_OFFSET), -0.25);
    assert_eq!(f32::from_bits(MALE_HEIGHT_OFFSET), 0.3);
    assert_eq!(f32::from_bits(BOY_HEIGHT_OFFSET), 0.09);
    assert_eq!(DEFAULT_SAMPLE_BUDGET, 119);
}

#[test]
fn screenshot_paths_are_numbered() {
    assert_eq!(screenshot_path(0, 0), "output/sample-0-0.png");
    assert_eq!(screenshot_path(12, 345), "output/sample-12-345.png");
    assert_eq!(screenshot_path(7, 10), "output/sample-7-10.png");
}

#[test]
fn two_characters_three_pairs_scenario() {
    let cfg = config(&["A", "B"], 3);
    let mut state = CaptureState::new();
    let (shots, _) = run(&cfg, &mut state);
    let mut expected = Vec::new();
    for c in 0..2 {
        for f in 0..6 {
            expected.push((format!("output/sample-{}-{}.png", c, f), f % 2 == 0));
        }
    }
    assert_eq!(shots, expected);
    for _ in 0..5 {
        let before = state;
        assert_eq!(state.step(&cfg, READY), CaptureAction::Wait);
        assert_eq!(state, before);
    }
}

#[test]
fn each_character_gets_exactly_twice_the_budget() {
    for (n, budget) in [(1usize, 1usize), (3, 1), (4, 5), (2, 119)] {
        let names: Vec<String> = (0..n).map(|i| format!("Character{}", i)).collect();
        let cfg = CaptureConfig::new(names, budget);
        let mut state = CaptureState::new();
        let (shots, _) = run(&cfg, &mut state);
        assert_eq!(shots.len(), n * 2 * budget);
        for c in 0..n {
            let prefix = format!("output/sample-{}-", c);
            assert_eq!(shots.iter().filter(|s| s.0.starts_with(&prefix)).count(), 2 * budget);
        }
        assert_eq!(state.character_index, n);
    }
}

#[test]
fn empty_character_list_finishes_at_once() {
    let cfg = config(&[], 3);
    let mut state = CaptureState::new();
    assert_eq!(state.step(&cfg, READY), CaptureAction::Finish);
    assert_eq!(state.phase, CapturePhase::Done);
    assert_eq!(state.step(&cfg, READY), CaptureAction::Wait);
}

#[test]
fn missing_or_empty_presets_defer() {
    let cfg = config(&["A"], 1);
    let mut state = CaptureState::new();
    let start = state;
    assert_eq!(state.step(&cfg, None), CaptureAction::Wait);
    assert_eq!(state.step(&cfg, Some(PresetCounts { cameras: 0, lights: 3 })), CaptureAction::Wait);
    assert_eq!(state.step(&cfg, Some(PresetCounts { cameras: 3, lights: 0 })), CaptureAction::Wait);
    assert_eq!(state, start);
}

#[test]
fn placement_uses_draws_and_character_offsets() {
    let cfg = config(&["NPC_Avatar_Male_Sword", ITTO], 1);
    let mut state = CaptureState::new();
    assert_eq!(
        state.advance(&cfg, READY, 1, 0),
        CaptureAction::PlaceCamera {
            camera: 1,
            light: 0,
            camera_height_offset: MALE_HEIGHT_OFFSET,
            light_offset: Vector3 { x: 0, y: 0, z: 0 },
        }
    );
    assert!(matches!(state.advance(&cfg, READY, 0, 0), CaptureAction::Screenshot { diffuse_only: true, character_index: 0, frame_index: 0 }));
    assert!(matches!(state.advance(&cfg, READY, 0, 0), CaptureAction::Screenshot { diffuse_only: false, character_index: 0, frame_index: 1 }));
    assert_eq!(
        state.advance(&cfg, READY, 0, 0),
        CaptureAction::LoadCharacter { character_index: 1, scale: DEFAULT_CHARACTER_SCALE }
    );
    assert!(state.settling);
    assert_eq!(state.advance(&cfg, READY, 0, 0), CaptureAction::Wait);
    assert_eq!(
        state.advance(&cfg, READY, 0, 1),
        CaptureAction::PlaceCamera {
            camera: 0,
            light: 1,
            camera_height_offset: MALE_HEIGHT_OFFSET,
            light_offset: Vector3 { x: 0, y: 0, z: F32_MINUS_TEN },
        }
    );
}

#[test]
fn random_draws_stay_in_the_group() {
    let cfg = config(&["A"], 119);
    let presets = Some(PresetCounts { cameras: 3, lights: 1 });
    for _ in 0..50 {
        let mut state = CaptureState::new();
        match state.step(&cfg, presets) {
            CaptureAction::PlaceCamera { camera, light, .. } => {
                assert!(camera < 3);
                assert_eq!(light, 0);
            }
            other => panic!("unexpected {:?}", other),
        }
    }
}

#[test]
fn lookup_tables() {
    let cfg = config(&[], 1);
    assert_eq!(cfg.height_offset("Avatar_Lady_Pole_Rosaria"), LADY_HEIGHT_OFFSET);
    assert_eq!(cfg.height_offset("Avatar_Loli_Bow_Diona"), LOLI_HEIGHT_OFFSET);
    assert_eq!(cfg.height_offset("Cs_Avatar_Boy_Sword_Albedo"), BOY_HEIGHT_OFFSET);
    assert_eq!(cfg.height_offset("Avatar_Girl_Bow_Fischl"), 0);
    assert_eq!(cfg.height_offset("Monster"), 0);
    assert_eq!(cfg.scale(AYATO), F32_TEN);
    assert_eq!(cfg.scale("unknown"), DEFAULT_CHARACTER_SCALE);
    assert_eq!(cfg.light_offset(ITTO), Vector3 { x: 0, y: 0, z: F32_MINUS_TEN });
    assert_eq!(cfg.light_offset("unknown"), Vector3 { x: 0, y: 0, z: 0 });
}

#[test]
fn effect_meshes_are_those_without_a_shaded_material() {
    assert!(is_effect_mesh(None));
    assert!(is_effect_mesh(Some(true)));
    assert!(!is_effect_mesh(Some(false)));
}
