//! The capture loop: per-character camera and light placement, paired
//! diffuse-only and shaded screenshots, and the move to the next character.

use vstd::prelude::*;
use vstd::string::*;
use crate::cel_material::{Vector3, F32_ONE};
use crate::naming::{contains_str, decimal, is_substring, push_decimal, same_str};
use crate::sampling::random_index;

verus! {

/// The number of (diffuse, shaded) pairs captured of each character by default.
pub const DEFAULT_SAMPLE_BUDGET: usize = 119;

/// Bit pattern of `100.0`: the scale of a character without an override.
pub const DEFAULT_CHARACTER_SCALE: u32 = 0x42C8_0000;

/// Bit pattern of `10.0`.
pub const F32_TEN: u32 = 0x4120_0000;

/// Bit pattern of `-10.0`.
pub const F32_MINUS_TEN: u32 = 0xC120_0000;

/// Bit pattern of `0.15`: camera lift for "Lady" models.
pub const LADY_HEIGHT_OFFSET: u32 = 0x3E19_999A;

/// Bit pattern of `-0.25`: camera lift for "Loli" models.
pub const LOLI_HEIGHT_OFFSET: u32 = 0xBE80_0000;

/// Bit pattern of `0.3`: camera lift for "Male" models.
pub const MALE_HEIGHT_OFFSET: u32 = 0x3E99_999A;

/// Bit pattern of `0.09`: camera lift for "Boy" models.
pub const BOY_HEIGHT_OFFSET: u32 = 0x3DB8_51EC;

/// The fixed tables and the character list that drive a capture run.
pub struct CaptureConfig {
    /// Scene paths of the characters, in capture order.
    pub characters: Vec<String>,
    /// Pairs of screenshots taken of each character.
    pub sample_budget: usize,
    /// Camera height offsets: the first key that occurs in the character's
    /// path applies; none applies zero.
    pub height_offsets: Vec<(String, u32)>,
    /// Light position offsets by exact character path; none applies zero.
    pub light_offsets: Vec<(String, Vector3)>,
    /// Uniform scales by exact character path; none gives `100.0`.
    pub scale_overrides: Vec<(String, u32)>,
}

/// The camera height offset of the character `name`.
pub open spec fn height_offset_for(table: Seq<(String, u32)>, name: Seq<char>) -> u32
    decreases table.len(),
{
    if table.len() == 0 {
        0
    } else if is_substring(table[0].0@, name) {
        table[0].1
    } else {
        height_offset_for(table.drop_first(), name)
    }
}

/// The value of the first entry of `table` keyed exactly `name`, or `default`.
pub open spec fn lookup_exact<V>(table: Seq<(String, V)>, name: Seq<char>, default: V) -> V
    decreases table.len(),
{
    if table.len() == 0 {
        default
    } else if table[0].0@ == name {
        table[0].1
    } else {
        lookup_exact(table.drop_first(), name, default)
    }
}

/// The zero vector.
pub open spec fn zero_vector() -> Vector3 {
    Vector3 { x: 0, y: 0, z: 0 }
}

impl CaptureConfig {
    /// A usable configuration: an odd budget whose screenshot count fits.
    pub open spec fn wf(&self) -> bool {
        &&& self.characters@.len() <= usize::MAX
        &&& self.sample_budget % 2 == 1
        &&& 2 * self.sample_budget <= usize::MAX
    }

    /// Screenshots taken of each character.
    pub open spec fn shots(&self) -> nat {
        2 * self.sample_budget as nat
    }

    /// A configuration with the standard tables.
    pub fn new(characters: Vec<String>, sample_budget: usize) -> (r: CaptureConfig)
        requires
            sample_budget % 2 == 1,
            2 * sample_budget <= usize::MAX,
        ensures
            r.wf(),
            r.characters == characters,
            r.sample_budget == sample_budget,
            standard_height_offsets(r.height_offsets@),
            standard_light_offsets(r.light_offsets@),
            standard_scale_overrides(r.scale_overrides@),
    {
        let count: usize = characters.len();
        assert(count == characters@.len());
        CaptureConfig {
            characters,
            sample_budget,
            height_offsets: height_offset_table(),
            light_offsets: light_offset_table(),
            scale_overrides: scale_override_table(),
        }
    }

    /// The camera height offset of `name`.
    pub fn height_offset(&self, name: &str) -> (r: u32)
        ensures
            r == height_offset_for(self.height_offsets@, name@),
    {
        let table = &self.height_offsets;
        let len = table.len();
        let mut i: usize = 0;
        assert(table@.subrange(0, len as int) =~= table@);
        while i < len
            invariant
                table@ == self.height_offsets@,
                len == table@.len(),
                i <= len,
                height_offset_for(table@, name@) == height_offset_for(
                    table@.subrange(i as int, len as int),
                    name@,
                ),
            decreases len - i,
        {
            assert(table@.subrange(i as int, len as int).drop_first() =~= table@.subrange(
                i + 1,
                len as int,
            ));
            assert(table@.subrange(i as int, len as int)[0] == table@[i as int]);
            if contains_str(name, table[i].0.as_str()) {
                return table[i].1;
            }
            i = i + 1;
        }
        0
    }

    /// The light position offset of `name`.
    pub fn light_offset(&self, name: &str) -> (r: Vector3)
        ensures
            r == lookup_exact(self.light_offsets@, name@, zero_vector()),
    {
        let table = &self.light_offsets;
        let len = table.len();
        let mut i: usize = 0;
        assert(table@.subrange(0, len as int) =~= table@);
        while i < len
            invariant
                table@ == self.light_offsets@,
                len == table@.len(),
                i <= len,
                lookup_exact(table@, name@, zero_vector()) == lookup_exact(
                    table@.subrange(i as int, len as int),
                    name@,
                    zero_vector(),
                ),
            decreases len - i,
        {
            assert(table@.subrange(i as int, len as int).drop_first() =~= table@.subrange(
                i + 1,
                len as int,
            ));
            assert(table@.subrange(i as int, len as int)[0] == table@[i as int]);
            if same_str(table[i].0.as_str(), name) {
                return table[i].1;
            }
            i = i + 1;
        }
        Vector3 { x: 0, y: 0, z: 0 }
    }

    /// The uniform scale of `name`.
    pub fn scale(&self, name: &str) -> (r: u32)
        ensures
            r == lookup_exact(self.scale_overrides@, name@, DEFAULT_CHARACTER_SCALE),
    {
        let table = &self.scale_overrides;
        let len = table.len();
        let mut i: usize = 0;
        assert(table@.subrange(0, len as int) =~= table@);
        while i < len
            invariant
                table@ == self.scale_overrides@,
                len == table@.len(),
                i <= len,
                lookup_exact(table@, name@, DEFAULT_CHARACTER_SCALE) == lookup_exact(
                    table@.subrange(i as int, len as int),
                    name@,
                    DEFAULT_CHARACTER_SCALE,
                ),
            decreases len - i,
        {
            assert(table@.subrange(i as int, len as int).drop_first() =~= table@.subrange(
                i + 1,
                len as int,
            ));
            assert(table@.subrange(i as int, len as int)[0] == table@[i as int]);
            if same_str(table[i].0.as_str(), name) {
                return table[i].1;
            }
            i = i + 1;
        }
        DEFAULT_CHARACTER_SCALE
    }
}

/// The body-type table: "Lady" `0.15`, "Girl" `0`, "Loli" `-0.25`, "Male" `0.3`,
/// "Boy" `0.09`, in that order.
pub open spec fn standard_height_offsets(t: Seq<(String, u32)>) -> bool {
    &&& t.len() == 5
    &&& t[0].0@ == "Lady"@ && t[0].1 == LADY_HEIGHT_OFFSET
    &&& t[1].0@ == "Girl"@ && t[1].1 == 0
    &&& t[2].0@ == "Loli"@ && t[2].1 == LOLI_HEIGHT_OFFSET
    &&& t[3].0@ == "Male"@ && t[3].1 == MALE_HEIGHT_OFFSET
    &&& t[4].0@ == "Boy"@ && t[4].1 == BOY_HEIGHT_OFFSET
}

/// The characters whose light sits 10 units further back.
pub open spec fn standard_light_offsets(t: Seq<(String, Vector3)>) -> bool {
    let back = Vector3 { x: 0, y: 0, z: F32_MINUS_TEN };
    &&& t.len() == 5
    &&& t[0].0@ == ITTO@ && t[0].1 == back
    &&& t[1].0@ == SHINOBU@ && t[1].1 == back
    &&& t[2].0@ == KAVEH@ && t[2].1 == back
    &&& t[3].0@ == DILUC@ && t[3].1 == back
    &&& t[4].0@ == DILUC_FLAMME@ && t[4].1 == back
}

/// The characters whose model has a native scale of its own.
pub open spec fn standard_scale_overrides(t: Seq<(String, u32)>) -> bool {
    &&& t.len() == 2
    &&& t[0].0@ == AYATO@ && t[0].1 == F32_TEN
    &&& t[1].0@ == ROSARIA_CENSORED@ && t[1].1 == F32_ONE
}

/// Scene path of Arataki Itto.
pub const ITTO: &'static str = "models/Characters/Arataki Itto/Avatar_Male_Claymore_Itto_Remote (merge).fbx#Scene";

/// Scene path of Kuki Shinobu.
pub const SHINOBU: &'static str = "models/Characters/Kuki Shinobu/NPC_Homeworld_Avatar_Girl_Sword_Shinobu (merge).fbx#Scene";

/// Scene path of Kaveh.
pub const KAVEH: &'static str = "models/Characters/Kaveh/NPC_Avatar_Male_Claymore_Kaveh.fbx#Scene";

/// Scene path of Diluc.
pub const DILUC: &'static str = "models/Characters/Diluc/Default/Cs_Avatar_Male_Claymore_Diluc.fbx#Scene";

/// Scene path of Diluc in his Flamme outfit.
pub const DILUC_FLAMME: &'static str = "models/Characters/Diluc/Flamme/Avatar_Male_Claymore_DilucCostumeFlamme.fbx#Scene";

/// Scene path of Kamisato Ayato.
pub const AYATO: &'static str = "models/Characters/Kamisato Ayato/Avatar_Male_Sword_Ayato (merge).fbx#Scene";

/// Scene path of the censored Rosaria model.
pub const ROSARIA_CENSORED: &'static str = "models/Characters/Rosaria/Censored/Avatar_Lady_Pole_Rosaria.fbx#Scene";

fn height_offset_table() -> (r: Vec<(String, u32)>)
    ensures
        standard_height_offsets(r@),
{
    vec![
        (String::from_str("Lady"), LADY_HEIGHT_OFFSET),
        (String::from_str("Girl"), 0),
        (String::from_str("Loli"), LOLI_HEIGHT_OFFSET),
        (String::from_str("Male"), MALE_HEIGHT_OFFSET),
        (String::from_str("Boy"), BOY_HEIGHT_OFFSET),
    ]
}

fn light_offset_table() -> (r: Vec<(String, Vector3)>)
    ensures
        standard_light_offsets(r@),
{
    let back = Vector3 { x: 0, y: 0, z: F32_MINUS_TEN };
    vec![
        (String::from_str(ITTO), back),
        (String::from_str(SHINOBU), back),
        (String::from_str(KAVEH), back),
        (String::from_str(DILUC), back),
        (String::from_str(DILUC_FLAMME), back),
    ]
}

fn scale_override_table() -> (r: Vec<(String, u32)>)
    ensures
        standard_scale_overrides(r@),
{
    vec![(String::from_str(AYATO), F32_TEN), (String::from_str(ROSARIA_CENSORED), F32_ONE)]
}

/// Where the capture loop stands.
#[derive(Clone, Copy, Debug, PartialEq, Eq, Structural)]
pub enum CapturePhase {
    /// The next step places camera and light (or moves on to the next character).
    SetupCamera,
    /// The next step takes the diffuse-only screenshot.
    CaptureDiffuse,
    /// The next step takes the fully shaded screenshot.
    CaptureShaded,
    /// Every character has been captured; nothing happens any more.
    Done,
}

/// The state of the capture loop.
#[derive(Clone, Copy, Debug, PartialEq, Eq, Structural)]
pub struct CaptureState {
    pub phase: CapturePhase,
    /// Index of the current character in the configured list.
    pub character_index: usize,
    /// Screenshots taken of the current character so far.
    pub frame_index: usize,
    /// A new character was just requested: the next step only lets it settle.
    pub settling: bool,
}

/// The sizes of the active preset group.
#[derive(Clone, Copy, Debug, PartialEq, Eq, Structural)]
pub struct PresetCounts {
    pub cameras: usize,
    pub lights: usize,
}

/// What the host has to do after a step.
#[derive(Clone, Copy, Debug, PartialEq, Eq, Structural)]
pub enum CaptureAction {
    /// Nothing this frame.
    Wait,
    /// Hide the current character and load the one at `character_index`, at
    /// uniform scale `scale` (a float's bit pattern).
    LoadCharacter { character_index: usize, scale: u32 },
    /// Apply camera preset `camera` raised by `camera_height_offset`, and light
    /// preset `light` moved by `light_offset` (bit patterns of floats).
    PlaceCamera { camera: usize, light: usize, camera_height_offset: u32, light_offset: Vector3 },
    /// Set every material's diffuse-only flag to `diffuse_only` and write
    /// the screenshot `sample-{character_index}-{frame_index}.png`.
    Screenshot { diffuse_only: bool, character_index: usize, frame_index: usize },
    /// The run just ended.
    Finish,
}

/// Whether the active preset group exists and has a camera and a light.
pub open spec fn presets_ready(presets: Option<PresetCounts>) -> bool {
    presets matches Some(p) && p.cameras > 0 && p.lights > 0
}

impl CaptureState {
    /// The states that a run reaches under configuration `cfg`.
    pub open spec fn inv(&self, cfg: &CaptureConfig) -> bool {
        let n = cfg.characters@.len();
        let shots = cfg.shots();
        &&& self.character_index <= n
        &&& self.frame_index <= shots
        &&& self.phase is SetupCamera ==> self.frame_index % 2 == 0 && (self.character_index == n
            ==> self.frame_index == 0)
        &&& self.phase is CaptureDiffuse ==> self.frame_index < shots && self.frame_index % 2 == 0
            && self.character_index < n
        &&& self.phase is CaptureShaded ==> self.frame_index < shots && self.frame_index % 2 == 1
            && self.character_index < n
        &&& self.phase is Done ==> self.character_index == n && self.frame_index == 0
        &&& self.settling ==> self.phase is SetupCamera && self.frame_index == 0
            && self.character_index < n
    }

    /// Screenshots taken since the run began.
    pub open spec fn progress(&self, cfg: &CaptureConfig) -> nat {
        (self.character_index * cfg.shots() + self.frame_index) as nat
    }

    /// The start of a run, with the first character already loading.
    pub fn new() -> (r: CaptureState)
        ensures
            r == (CaptureState {
                phase: CapturePhase::SetupCamera,
                character_index: 0,
                frame_index: 0,
                settling: false,
            }),
            forall|cfg: &CaptureConfig| #[trigger] r.inv(cfg),
    {
        CaptureState {
            phase: CapturePhase::SetupCamera,
            character_index: 0,
            frame_index: 0,
            settling: false,
        }
    }
}

/// The state after one step from `s`.
pub open spec fn next_state(s: CaptureState, cfg: &CaptureConfig, presets: Option<PresetCounts>) -> CaptureState {
    let n = cfg.characters@.len();
    match s.phase {
        CapturePhase::Done => s,
        CapturePhase::SetupCamera => {
            if s.settling {
                CaptureState { settling: false, ..s }
            } else if s.character_index >= n {
                CaptureState { phase: CapturePhase::Done, ..s }
            } else if s.frame_index >= cfg.shots() {
                if s.character_index + 1 >= n {
                    CaptureState {
                        phase: CapturePhase::Done,
                        character_index: (s.character_index + 1) as usize,
                        frame_index: 0,
                        settling: false,
                    }
                } else {
                    CaptureState {
                        phase: CapturePhase::SetupCamera,
                        character_index: (s.character_index + 1) as usize,
                        frame_index: 0,
                        settling: true,
                    }
                }
            } else if !presets_ready(presets) {
                s
            } else {
                CaptureState { phase: CapturePhase::CaptureDiffuse, ..s }
            }
        },
        CapturePhase::CaptureDiffuse => {
            if !presets_ready(presets) {
                s
            } else {
                CaptureState {
                    phase: CapturePhase::CaptureShaded,
                    frame_index: (s.frame_index + 1) as usize,
                    ..s
                }
            }
        },
        CapturePhase::CaptureShaded => {
            if !presets_ready(presets) {
                s
            } else {
                CaptureState {
                    phase: CapturePhase::SetupCamera,
                    frame_index: (s.frame_index + 1) as usize,
                    ..s
                }
            }
        },
    }
}

/// The action of one step from `s`, with `camera` and `light` drawn from the
/// preset group.
pub open spec fn next_action(
    s: CaptureState,
    cfg: &CaptureConfig,
    presets: Option<PresetCounts>,
    camera: usize,
    light: usize,
) -> CaptureAction {
    let n = cfg.characters@.len();
    match s.phase {
        CapturePhase::Done => CaptureAction::Wait,
        CapturePhase::SetupCamera => {
            if s.settling {
                CaptureAction::Wait
            } else if s.character_index >= n {
                CaptureAction::Finish
            } else if s.frame_index >= cfg.shots() {
                if s.character_index + 1 >= n {
                    CaptureAction::Finish
                } else {
                    CaptureAction::LoadCharacter {
                        character_index: (s.character_index + 1) as usize,
                        scale: lookup_exact(
                            cfg.scale_overrides@,
                            cfg.characters@[s.character_index + 1]@,
                            DEFAULT_CHARACTER_SCALE,
                        ),
                    }
                }
            } else if !presets_ready(presets) {
                CaptureAction::Wait
            } else {
                CaptureAction::PlaceCamera {
                    camera,
                    light,
                    camera_height_offset: height_offset_for(
                        cfg.height_offsets@,
                        cfg.characters@[s.character_index as int]@,
                    ),
                    light_offset: lookup_exact(
                        cfg.light_offsets@,
                        cfg.characters@[s.character_index as int]@,
                        zero_vector(),
                    ),
                }
            }
        },
        CapturePhase::CaptureDiffuse | CapturePhase::CaptureShaded => {
            if !presets_ready(presets) {
                CaptureAction::Wait
            } else {
                CaptureAction::Screenshot {
                    diffuse_only: s.phase is CaptureDiffuse,
                    character_index: s.character_index,
                    frame_index: s.frame_index,
                }
            }
        },
    }
}

/// Whether `camera` and `light` index into a preset group that has a camera
/// and a light.
pub open spec fn draws_fit(presets: Option<PresetCounts>, camera: usize, light: usize) -> bool {
    match presets {
        Some(p) => p.cameras > 0 && p.lights > 0 ==> camera < p.cameras && light < p.lights,
        None => true,
    }
}

impl CaptureState {
    /// One step of the capture loop, with the camera and light presets already
    /// drawn: `camera` and `light` must lie in the active group where it has a
    /// camera and a light.
    pub fn advance(
        &mut self,
        cfg: &CaptureConfig,
        presets: Option<PresetCounts>,
        camera: usize,
        light: usize,
    ) -> (r: CaptureAction)
        requires
            cfg.wf(),
            old(self).inv(cfg),
            draws_fit(presets, camera, light),
        ensures
            *final(self) == next_state(*old(self), cfg, presets),
            r == next_action(*old(self), cfg, presets, camera, light),
            final(self).inv(cfg),
    {
        let n = cfg.characters.len();
        let shots = 2 * cfg.sample_budget;
        let ready = match presets {
            Some(p) => p.cameras > 0 && p.lights > 0,
            None => false,
        };
        match self.phase {
            CapturePhase::Done => CaptureAction::Wait,
            CapturePhase::SetupCamera => {
                if self.settling {
                    self.settling = false;
                    CaptureAction::Wait
                } else if self.character_index >= n {
                    self.phase = CapturePhase::Done;
                    CaptureAction::Finish
                } else if self.frame_index >= shots {
                    let next = self.character_index + 1;
                    self.character_index = next;
                    self.frame_index = 0;
                    if next >= n {
                        self.phase = CapturePhase::Done;
                        CaptureAction::Finish
                    } else {
                        self.settling = true;
                        CaptureAction::LoadCharacter {
                            character_index: next,
                            scale: cfg.scale(cfg.characters[next].as_str()),
                        }
                    }
                } else if !ready {
                    CaptureAction::Wait
                } else {
                    let name = cfg.characters[self.character_index].as_str();
                    self.phase = CapturePhase::CaptureDiffuse;
                    CaptureAction::PlaceCamera {
                        camera,
                        light,
                        camera_height_offset: cfg.height_offset(name),
                        light_offset: cfg.light_offset(name),
                    }
                }
            },
            CapturePhase::CaptureDiffuse => {
                if !ready {
                    CaptureAction::Wait
                } else {
                    let frame_index = self.frame_index;
                    self.frame_index = frame_index + 1;
                    self.phase = CapturePhase::CaptureShaded;
                    CaptureAction::Screenshot {
                        diffuse_only: true,
                        character_index: self.character_index,
                        frame_index,
                    }
                }
            },
            CapturePhase::CaptureShaded => {
                if !ready {
                    CaptureAction::Wait
                } else {
                    let frame_index = self.frame_index;
                    self.frame_index = frame_index + 1;
                    self.phase = CapturePhase::SetupCamera;
                    CaptureAction::Screenshot {
                        diffuse_only: false,
                        character_index: self.character_index,
                        frame_index,
                    }
                }
            },
        }
    }

    /// One step of the capture loop, drawing the camera and light presets
    /// uniformly from the active group when they are needed.
    pub fn step(&mut self, cfg: &CaptureConfig, presets: Option<PresetCounts>) -> (r: CaptureAction)
        requires
            cfg.wf(),
            old(self).inv(cfg),
        ensures
            *final(self) == next_state(*old(self), cfg, presets),
            exists|camera: usize, light: usize|
                draws_fit(presets, camera, light) && r == #[trigger] next_action(
                    *old(self),
                    cfg,
                    presets,
                    camera,
                    light,
                ),
            final(self).inv(cfg),
    {
        let mut camera: usize = 0;
        let mut light: usize = 0;
        if let Some(p) = presets {
            if self.phase == CapturePhase::SetupCamera && p.cameras > 0 && p.lights > 0 {
                camera = random_index(p.cameras);
                light = random_index(p.lights);
            }
        }
        self.advance(cfg, presets, camera, light)
    }
}

/// The number of screenshots of a whole run.
pub open spec fn total_shots(cfg: &CaptureConfig) -> nat {
    cfg.characters@.len() * cfg.shots()
}

proof fn lemma_progress_bound(s: CaptureState, cfg: &CaptureConfig)
    requires
        s.inv(cfg),
    ensures
        s.progress(cfg) <= total_shots(cfg),
        s.character_index < cfg.characters@.len() ==> s.progress(cfg) + cfg.shots() - s.frame_index
            <= total_shots(cfg),
{
    let c = s.character_index as int;
    let n = cfg.characters@.len() as int;
    let k = cfg.shots() as int;
    let f = s.frame_index as int;
    if c < n {
        assert(c * k + k <= n * k) by (nonlinear_arith)
            requires
                c + 1 <= n,
                k >= 0,
        ;
    } else {
        assert(c * k == n * k);
    }
}

/// Accounting of one step, whatever the presets and the draws: the step keeps
/// the reachable states, takes at most one screenshot, and a screenshot it
/// takes is the next one of the run, `sample-{c}-{f}` with `f < 2 * budget`
/// and `c * 2 * budget + f` the number taken before it, diffuse-only exactly
/// when `f` is even. So each character gets exactly `2 * budget` screenshots,
/// in order, and the run holds `characters * 2 * budget` of them when it is
/// done; once done, a step changes nothing and does nothing.
pub proof fn lemma_capture_step_accounting(
    s: CaptureState,
    cfg: &CaptureConfig,
    presets: Option<PresetCounts>,
    camera: usize,
    light: usize,
)
    requires
        cfg.wf(),
        s.inv(cfg),
    ensures
        next_state(s, cfg, presets).inv(cfg),
        s.progress(cfg) <= total_shots(cfg),
        next_action(s, cfg, presets, camera, light) matches CaptureAction::Screenshot {
            diffuse_only,
            character_index,
            frame_index,
        } ==> {
            &&& next_state(s, cfg, presets).progress(cfg) == s.progress(cfg) + 1
            &&& character_index == s.character_index
            &&& frame_index == s.frame_index
            &&& character_index < cfg.characters@.len()
            &&& frame_index < cfg.shots()
            &&& character_index * cfg.shots() + frame_index == s.progress(cfg)
            &&& diffuse_only == (frame_index % 2 == 0)
        },
        !(next_action(s, cfg, presets, camera, light) is Screenshot) ==> next_state(
            s,
            cfg,
            presets,
        ).progress(cfg) == s.progress(cfg),
        s.phase is Done ==> next_state(s, cfg, presets) == s && next_action(
            s,
            cfg,
            presets,
            camera,
            light,
        ) is Wait && s.progress(cfg) == total_shots(cfg),
        next_state(s, cfg, presets).phase is Done ==> next_state(s, cfg, presets).progress(cfg)
            == total_shots(cfg),
{
    lemma_progress_bound(s, cfg);
    let t = next_state(s, cfg, presets);
    assert(t.inv(cfg));
    let c = s.character_index as int;
    let k = cfg.shots() as int;
    assert((c + 1) * k == c * k + k) by (nonlinear_arith);
    lemma_progress_bound(t, cfg);
    if t.phase is Done {
        let n = cfg.characters@.len() as int;
        assert(t.character_index == n);
        assert(t.progress(cfg) == n * k);
    }
}

/// The draws of camera and light decide which presets a step applies, never
/// what the step does otherwise: the next state does not depend on them, and
/// a step takes a screenshot, loads a character or finishes for every draw or
/// for none.
pub proof fn lemma_capture_draws_only_pick_presets(
    s: CaptureState,
    cfg: &CaptureConfig,
    presets: Option<PresetCounts>,
    camera1: usize,
    light1: usize,
    camera2: usize,
    light2: usize,
)
    ensures
        next_action(s, cfg, presets, camera1, light1) is PlaceCamera <==> next_action(
            s,
            cfg,
            presets,
            camera2,
            light2,
        ) is PlaceCamera,
        !(next_action(s, cfg, presets, camera1, light1) is PlaceCamera) ==> next_action(
            s,
            cfg,
            presets,
            camera1,
            light1,
        ) == next_action(s, cfg, presets, camera2, light2),
{
}

/// A bound on the steps a run still takes while the presets stay available.
pub open spec fn steps_left_bound(s: CaptureState, cfg: &CaptureConfig) -> int {
    let n = cfg.characters@.len();
    let rank: int = match s.phase {
        CapturePhase::Done => 0,
        CapturePhase::CaptureShaded => 1,
        CapturePhase::CaptureDiffuse => 2,
        CapturePhase::SetupCamera => if s.settling {
            4
        } else if s.character_index >= n || s.frame_index >= cfg.shots() {
            5
        } else {
            3
        },
    };
    8 * (total_shots(cfg) - s.progress(cfg)) + rank
}

/// The run ends: while the preset group has a camera and a light, every step
/// before the end lowers a bound that is never negative, so the loop reaches
/// `Done` after finitely many steps, and the step that reaches it says so.
pub proof fn lemma_capture_terminates(
    s: CaptureState,
    cfg: &CaptureConfig,
    presets: Option<PresetCounts>,
    camera: usize,
    light: usize,
)
    requires
        cfg.wf(),
        s.inv(cfg),
        presets_ready(presets),
    ensures
        steps_left_bound(s, cfg) >= 0,
        s.phase is Done <==> steps_left_bound(s, cfg) == 0,
        !(s.phase is Done) ==> 0 <= steps_left_bound(next_state(s, cfg, presets), cfg)
            < steps_left_bound(s, cfg),
        next_state(s, cfg, presets).phase is Done && !(s.phase is Done) ==> next_action(
            s,
            cfg,
            presets,
            camera,
            light,
        ) is Finish,
{
    lemma_capture_step_accounting(s, cfg, presets, camera, light);
    lemma_progress_bound(next_state(s, cfg, presets), cfg);
    if !(s.phase is Done) && s.character_index < cfg.characters@.len() {
        lemma_progress_bound(s, cfg);
    }
}

/// Whether a mesh of a freshly loaded scene is an effect mesh, hidden from the
/// capture: its material is unknown (`None`) or is in the diffuse-only pass.
pub fn is_effect_mesh(material_diffuse_only: Option<bool>) -> (r: bool)
    ensures
        r == (match material_diffuse_only {
            Some(d) => d,
            None => true,
        }),
{
    match material_diffuse_only {
        Some(d) => d,
        None => true,
    }
}

/// Screenshot path of frame `frame_index` of character `character_index`.
pub open spec fn screenshot_path_of(character_index: nat, frame_index: nat) -> Seq<char> {
    "output/sample-"@ + decimal(character_index) + "-"@ + decimal(frame_index) + ".png"@
}

/// The path `output/sample-{character_index}-{frame_index}.png`.
pub fn screenshot_path(character_index: usize, frame_index: usize) -> (r: String)
    ensures
        r@ == screenshot_path_of(character_index as nat, frame_index as nat),
{
    let mut path = String::from_str("output/sample-");
    push_decimal(&mut path, character_index);
    path.append("-");
    push_decimal(&mut path, frame_index);
    path.append(".png");
    path
}

} // verus!
