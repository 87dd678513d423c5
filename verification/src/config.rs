//! Machine-profile sections that the library reads, and the structural
//! validation that runs before any hardware is opened.
use vstd::prelude::*;
use vstd::string::StringExecFns;
use crate::text::{char_is_space, chars_of, decimal, has_prefix, is_space, push_decimal, starts_with};

verus! {

/// A post-rotation Camera crop rectangle in pixels.
#[derive(Clone, Copy, Debug, PartialEq, Eq, Structural)]
pub struct CropGeometry {
    /// Horizontal origin from the left edge.
    pub x: u32,
    /// Vertical origin from the top edge.
    pub y: u32,
    /// Nonzero crop width.
    pub width: u32,
    /// Nonzero crop height.
    pub height: u32,
}

/// Stable serial-device paths for both controller boards.
#[derive(Clone, Debug, PartialEq, Eq)]
pub struct BoardProfile {
    /// Stable serial-device path for the Ligature motion board.
    pub ligature_path: String,
    /// Stable serial-device path for the Monospace relay board.
    pub monospace_path: String,
}

/// Stable identity and post-rotation geometry for one Camera role.
#[derive(Clone, Debug, PartialEq, Eq)]
pub struct CameraRoleProfile {
    /// Persistent `/dev/v4l/by-id` or commissioned `/dev/v4l/by-path` identity.
    pub identity: String,
    /// Clockwise quarter-turn rotation in degrees.
    pub rotation_degrees: u16,
    /// Full-page preview crop in post-rotation pixels.
    pub crop: CropGeometry,
}

/// Left and Right Camera-role configuration.
#[derive(Clone, Debug, PartialEq, Eq)]
pub struct CameraProfiles {
    /// Configuration for the physical Left Camera role.
    pub left: CameraRoleProfile,
    /// Configuration for the physical Right Camera role.
    pub right: CameraRoleProfile,
}

/// Positive Machine-operation deadlines in milliseconds.
#[derive(Clone, Copy, Debug, PartialEq, Eq, Structural)]
pub struct TimeoutProfile {
    /// Maximum wait while opening a live device.
    pub device_open_ms: u64,
    /// Maximum wait for an ordinary board command.
    pub command_ms: u64,
    /// Maximum wait for one Camera-role capture.
    pub camera_capture_ms: u64,
    /// Maximum current-epoch terminal wait during Stop; capped at 500 ms.
    pub stop_terminal_ms: u64,
}

/// Immutable ceiling of the Stop terminal wait, in milliseconds.
pub const MAX_STOP_TERMINAL_MS: u64 = 500;

/// Immutable ceiling of `motion.classification_start_percent`.
pub const MAX_CLASSIFICATION_START_PERCENT: u64 = 10;

/// Immutable ceiling of `motion.wiggle_start_percent`.
pub const MAX_WIGGLE_START_PERCENT: u64 = 65;

/// Immutable ceiling of `motion.wiggle_retreat_percent`.
pub const MAX_WIGGLE_RETREAT_PERCENT: u64 = 5;

/// Immutable ceiling of `motion.blower_on_percent`.
pub const MAX_BLOWER_ON_PERCENT: u64 = 80;

/// Immutable ceiling of `motion.vacuum_off_percent`.
pub const MAX_VACUUM_OFF_PERCENT: u64 = 100;

/// Immutable ceiling of `motion.final_lift_percent`.
pub const MAX_FINAL_LIFT_PERCENT: u64 = 105;

/// Immutable ceiling of `motion.blower_off_descent_percent`.
pub const MAX_BLOWER_OFF_DESCENT_PERCENT: u64 = 80;

/// Immutable ceiling of `motion.touchdown_press_percent`.
pub const MAX_TOUCHDOWN_PRESS_PERCENT: u64 = 50;

/// How one real-valued profile entry compares with its bounds. Real values
/// are read and compared where the profile is decoded; the validation here
/// decides which problems they cause.
#[derive(Clone, Copy, Debug, PartialEq, Eq, Structural)]
pub struct RealCheck {
    /// The value is finite and greater than zero.
    pub positive_finite: bool,
    /// The value is greater than its immutable ceiling, where it has one.
    pub above_ceiling: bool,
}

/// The comparisons of the real-valued Touchdown and page-turn tuning.
#[derive(Clone, Copy, Debug, PartialEq, Eq, Structural)]
pub struct MotionChecks {
    /// `touchdown_press_percent` against its 50% ceiling.
    pub touchdown_press: RealCheck,
    /// `classification_start_percent` against its 10% ceiling.
    pub classification_start: RealCheck,
    /// `wiggle_start_percent` against its 65% ceiling.
    pub wiggle_start: RealCheck,
    /// `wiggle_retreat_percent` against its 5% ceiling.
    pub wiggle_retreat: RealCheck,
    /// `blower_on_percent` against its 80% ceiling.
    pub blower_on: RealCheck,
    /// `vacuum_off_percent` against its 100% ceiling.
    pub vacuum_off: RealCheck,
    /// `final_lift_percent` against its 105% ceiling.
    pub final_lift: RealCheck,
    /// `blower_off_descent_percent` against its 80% ceiling.
    pub blower_off_descent: RealCheck,
    /// classification start < wiggle start - wiggle retreat, wiggle retreat
    /// < wiggle start < blower on < vacuum off < final lift.
    pub anchors_safely_ordered: bool,
}

/// The comparisons of the profile's real-valued entries.
#[derive(Clone, Copy, Debug, PartialEq, Eq, Structural)]
pub struct RealChecks {
    /// `page_width.minimum_mm`.
    pub page_width_minimum: RealCheck,
    /// `page_width.maximum_mm`.
    pub page_width_maximum: RealCheck,
    /// `minimum_mm >= maximum_mm`.
    pub page_width_inverted: bool,
    /// `pickup.vacuum_working_drop_mbar`.
    pub vacuum_working_drop: RealCheck,
    /// `pickup.pickup_drop_mbar`.
    pub pickup_drop: RealCheck,
    /// `vacuum_working_drop_mbar >= pickup_drop_mbar`.
    pub pickup_inverted: bool,
    /// The motion tuning.
    pub motion: MotionChecks,
}

/// What structural validation reads of a decoded Machine profile.
#[derive(Clone, Debug, PartialEq, Eq)]
pub struct ProfileFacts {
    /// On-disk schema version.
    pub schema_version: u32,
    /// Whether `data_root` is empty.
    pub data_root_empty: bool,
    /// Stable paths for the two controller boards.
    pub boards: BoardProfile,
    /// Stable identities and geometry for the Left and Right Camera roles.
    pub cameras: CameraProfiles,
    /// I/O deadlines.
    pub timeouts: TimeoutProfile,
    /// Consecutive samples required for a pressure classification.
    pub confirmation_samples: u32,
    /// The comparisons of the real-valued entries.
    pub reals: RealChecks,
}

/// The problem `msg` where `cond` holds.
pub open spec fn problem_if(cond: bool, msg: Seq<char>) -> Seq<Seq<char>> {
    if cond {
        seq![msg]
    } else {
        Seq::empty()
    }
}

/// Whether a string is blank or still holds a `<placeholder>`.
pub open spec fn needs_commissioning(value: Seq<char>) -> bool {
    (forall|i: int| 0 <= i < value.len() ==> is_space(#[trigger] value[i]))
        || value.contains('<') || value.contains('>')
}

/// Problems of a string that must be commissioned.
pub open spec fn required_string_problems(name: Seq<char>, value: Seq<char>) -> Seq<Seq<char>> {
    problem_if(needs_commissioning(value), name + " must be commissioned and nonempty"@)
}

/// Problems of one Camera role.
pub open spec fn camera_problems(name: Seq<char>, camera: CameraRoleProfile) -> Seq<Seq<char>> {
    let id = camera.identity@;
    required_string_problems(name + ".identity"@, id) + problem_if(
        !has_prefix(id, "/dev/v4l/by-id/"@) && !has_prefix(id, "/dev/v4l/by-path/"@),
        name + ".identity must use a stable /dev/v4l/by-id or /dev/v4l/by-path identity"@,
    ) + problem_if(
        !(camera.rotation_degrees == 0 || camera.rotation_degrees == 90
            || camera.rotation_degrees == 180 || camera.rotation_degrees == 270),
        name + ".rotation_degrees must be a quarter turn"@,
    ) + problem_if(
        camera.crop.width == 0 || camera.crop.height == 0,
        name + ".crop dimensions must be nonzero"@,
    ) + problem_if(
        camera.crop.x + camera.crop.width > u32::MAX || camera.crop.y + camera.crop.height
            > u32::MAX,
        name + ".crop geometry overflows"@,
    )
}

/// Problems of a deadline that must be positive.
pub open spec fn positive_timeout_problems(name: Seq<char>, value: u64) -> Seq<Seq<char>> {
    problem_if(value == 0, name + " must be positive"@)
}

/// Problems of a deadline that must be positive and at most `ceiling`.
pub open spec fn timeout_problems(name: Seq<char>, value: u64, ceiling: u64) -> Seq<Seq<char>> {
    if value == 0 {
        seq![name + " must be positive"@]
    } else {
        problem_if(
            value > ceiling,
            name + " exceeds immutable "@ + decimal(ceiling as nat) + " ms ceiling"@,
        )
    }
}

/// Problems of a real value that must be positive and finite.
pub open spec fn positive_finite_problems(name: Seq<char>, check: RealCheck) -> Seq<Seq<char>> {
    problem_if(!check.positive_finite, name + " must be positive and finite"@)
}

/// Problems of one motion percentage with its ceiling.
pub open spec fn motion_entry_problems(name: Seq<char>, check: RealCheck, ceiling: nat) -> Seq<Seq<char>> {
    positive_finite_problems("motion."@ + name, check) + problem_if(
        check.above_ceiling,
        "motion."@ + name + " exceeds immutable "@ + decimal(ceiling) + "% ceiling"@,
    )
}

/// Problems of the motion tuning, in profile order.
pub open spec fn motion_problems(m: MotionChecks) -> Seq<Seq<char>> {
    motion_entry_problems("classification_start_percent"@, m.classification_start, MAX_CLASSIFICATION_START_PERCENT as nat)
        + motion_entry_problems("wiggle_start_percent"@, m.wiggle_start, MAX_WIGGLE_START_PERCENT as nat)
        + motion_entry_problems("wiggle_retreat_percent"@, m.wiggle_retreat, MAX_WIGGLE_RETREAT_PERCENT as nat)
        + motion_entry_problems("blower_on_percent"@, m.blower_on, MAX_BLOWER_ON_PERCENT as nat)
        + motion_entry_problems("vacuum_off_percent"@, m.vacuum_off, MAX_VACUUM_OFF_PERCENT as nat)
        + motion_entry_problems("final_lift_percent"@, m.final_lift, MAX_FINAL_LIFT_PERCENT as nat)
        + motion_entry_problems("blower_off_descent_percent"@, m.blower_off_descent, MAX_BLOWER_OFF_DESCENT_PERCENT as nat)
        + motion_entry_problems("touchdown_press_percent"@, m.touchdown_press, MAX_TOUCHDOWN_PRESS_PERCENT as nat)
        + problem_if(
        !m.anchors_safely_ordered,
        "motion Lift-percentage anchors must be safely ordered"@,
    )
}

/// Every structural problem of a profile, in the order they are reported.
pub open spec fn profile_problems(p: ProfileFacts) -> Seq<Seq<char>> {
    problem_if(p.schema_version != 1, "schema_version must be 1"@) + required_string_problems(
        "boards.ligature_path"@,
        p.boards.ligature_path@,
    ) + required_string_problems("boards.monospace_path"@, p.boards.monospace_path@) + problem_if(
        p.boards.ligature_path@ == p.boards.monospace_path@,
        "board paths must be distinct"@,
    ) + camera_problems("cameras.left"@, p.cameras.left) + camera_problems(
        "cameras.right"@,
        p.cameras.right,
    ) + problem_if(
        p.cameras.left.identity@ == p.cameras.right.identity@,
        "Camera-role identities must be distinct"@,
    ) + problem_if(p.data_root_empty, "data_root must not be empty"@) + positive_finite_problems(
        "page_width.minimum_mm"@,
        p.reals.page_width_minimum,
    ) + positive_finite_problems("page_width.maximum_mm"@, p.reals.page_width_maximum)
        + problem_if(p.reals.page_width_inverted, "page-width bounds must be ordered"@)
        + positive_timeout_problems("timeouts.device_open_ms"@, p.timeouts.device_open_ms)
        + positive_timeout_problems("timeouts.command_ms"@, p.timeouts.command_ms)
        + positive_timeout_problems("timeouts.camera_capture_ms"@, p.timeouts.camera_capture_ms)
        + timeout_problems(
        "timeouts.stop_terminal_ms"@,
        p.timeouts.stop_terminal_ms,
        MAX_STOP_TERMINAL_MS,
    ) + positive_finite_problems("pickup.vacuum_working_drop_mbar"@, p.reals.vacuum_working_drop)
        + positive_finite_problems("pickup.pickup_drop_mbar"@, p.reals.pickup_drop) + problem_if(
        p.reals.pickup_inverted,
        "pickup thresholds must be ordered"@,
    ) + problem_if(
        p.confirmation_samples == 0,
        "pickup.confirmation_samples must be positive"@,
    ) + motion_problems(p.reals.motion)
}

/// The models of a list of problems.
pub open spec fn texts_view(v: Seq<String>) -> Seq<Seq<char>> {
    v.map_values(|s: String| s@)
}

fn push_problem(problems: &mut Vec<String>, cond: bool, msg: String)
    ensures
        texts_view(final(problems)@) == texts_view(old(problems)@) + problem_if(cond, msg@),
{
    if cond {
        problems.push(msg);
        assert(texts_view(problems@) =~= texts_view(old(problems)@) + seq![msg@]);
    } else {
        assert(texts_view(problems@) =~= texts_view(old(problems)@) + Seq::<Seq<char>>::empty());
    }
}

fn named(name: &str, suffix: &str) -> (s: String)
    ensures
        s@ == name@ + suffix@,
{
    let mut s = name.to_owned();
    s.append(suffix);
    s
}

fn contains_char(s: &[char], c: char) -> (b: bool)
    ensures
        b == s@.contains(c),
{
    let mut i: usize = 0;
    while i < s.len()
        invariant
            i <= s@.len(),
            forall|j: int| 0 <= j < i ==> s@[j] != c,
        decreases s@.len() - i,
    {
        if s[i] == c {
            return true;
        }
        i = i + 1;
    }
    false
}

fn is_blank(s: &[char]) -> (b: bool)
    ensures
        b == (forall|i: int| 0 <= i < s@.len() ==> is_space(#[trigger] s@[i])),
{
    let mut i: usize = 0;
    while i < s.len()
        invariant
            i <= s@.len(),
            forall|j: int| 0 <= j < i ==> is_space(#[trigger] s@[j]),
        decreases s@.len() - i,
    {
        if !char_is_space(s[i]) {
            return false;
        }
        i = i + 1;
    }
    true
}

fn validate_required_string(name: &str, value: &str, problems: &mut Vec<String>)
    ensures
        texts_view(final(problems)@) == texts_view(old(problems)@) + required_string_problems(
            name@,
            value@,
        ),
{
    let v = chars_of(value);
    let bad = is_blank(v.as_slice()) || contains_char(v.as_slice(), '<') || contains_char(
        v.as_slice(),
        '>',
    );
    push_problem(problems, bad, named(name, " must be commissioned and nonempty"));
}

fn validate_camera(name: &str, camera: &CameraRoleProfile, problems: &mut Vec<String>)
    ensures
        texts_view(final(problems)@) == texts_view(old(problems)@) + camera_problems(
            name@,
            *camera,
        ),
{
    let ghost start = texts_view(problems@);
    let id_name = named(name, ".identity");
    validate_required_string(id_name.as_str(), camera.identity.as_str(), problems);
    let id = chars_of(camera.identity.as_str());
    let stable = starts_with(id.as_slice(), "/dev/v4l/by-id/") || starts_with(
        id.as_slice(),
        "/dev/v4l/by-path/",
    );
    push_problem(
        problems,
        !stable,
        named(name, ".identity must use a stable /dev/v4l/by-id or /dev/v4l/by-path identity"),
    );
    let r = camera.rotation_degrees;
    push_problem(
        problems,
        !(r == 0 || r == 90 || r == 180 || r == 270),
        named(name, ".rotation_degrees must be a quarter turn"),
    );
    push_problem(
        problems,
        camera.crop.width == 0 || camera.crop.height == 0,
        named(name, ".crop dimensions must be nonzero"),
    );
    let overflows = camera.crop.x.checked_add(camera.crop.width).is_none()
        || camera.crop.y.checked_add(camera.crop.height).is_none();
    push_problem(problems, overflows, named(name, ".crop geometry overflows"));
    assert(texts_view(problems@) =~= start + camera_problems(name@, *camera));
}

fn validate_timeout(name: &str, value: u64, ceiling: u64, problems: &mut Vec<String>)
    ensures
        texts_view(final(problems)@) == texts_view(old(problems)@) + timeout_problems(
            name@,
            value,
            ceiling,
        ),
{
    if value == 0 {
        push_problem(problems, true, named(name, " must be positive"));
    } else {
        let mut msg = named(name, " exceeds immutable ");
        push_decimal(&mut msg, ceiling);
        msg.append(" ms ceiling");
        push_problem(problems, value > ceiling, msg);
    }
}

fn validate_positive_timeout(name: &str, value: u64, problems: &mut Vec<String>)
    ensures
        texts_view(final(problems)@) == texts_view(old(problems)@) + positive_timeout_problems(
            name@,
            value,
        ),
{
    push_problem(problems, value == 0, named(name, " must be positive"));
}

fn validate_positive_finite(name: &str, check: RealCheck, problems: &mut Vec<String>)
    ensures
        texts_view(final(problems)@) == texts_view(old(problems)@) + positive_finite_problems(
            name@,
            check,
        ),
{
    push_problem(problems, !check.positive_finite, named(name, " must be positive and finite"));
}

fn validate_motion_entry(name: &str, check: RealCheck, ceiling: u64, problems: &mut Vec<String>)
    ensures
        texts_view(final(problems)@) == texts_view(old(problems)@) + motion_entry_problems(
            name@,
            check,
            ceiling as nat,
        ),
{
    let ghost start = texts_view(problems@);
    let full = named("motion.", name);
    validate_positive_finite(full.as_str(), check, problems);
    let mut msg = named(full.as_str(), " exceeds immutable ");
    push_decimal(&mut msg, ceiling);
    msg.append("% ceiling");
    push_problem(problems, check.above_ceiling, msg);
    assert(texts_view(problems@) =~= start + motion_entry_problems(name@, check, ceiling as nat));
}

proof fn lemma_extend(start: Seq<Seq<char>>, done: Seq<Seq<char>>, next: Seq<Seq<char>>)
    ensures
        (start + done) + next == start + (done + next),
{
    assert((start + done) + next =~= start + (done + next));
}

fn validate_motion(m: &MotionChecks, problems: &mut Vec<String>)
    ensures
        texts_view(final(problems)@) == texts_view(old(problems)@) + motion_problems(*m),
{
    let ghost start = texts_view(problems@);
    let ghost mut done: Seq<Seq<char>> = Seq::empty();
    assert(texts_view(problems@) =~= start + done);
    validate_motion_entry("classification_start_percent", m.classification_start, MAX_CLASSIFICATION_START_PERCENT, problems);
    proof {
        let next = motion_entry_problems("classification_start_percent"@, m.classification_start, MAX_CLASSIFICATION_START_PERCENT as nat);
        lemma_extend(start, done, next);
        assert(done + next =~= next);
        done = next;
    }
    validate_motion_entry("wiggle_start_percent", m.wiggle_start, MAX_WIGGLE_START_PERCENT, problems);
    proof {
        let next = motion_entry_problems("wiggle_start_percent"@, m.wiggle_start, MAX_WIGGLE_START_PERCENT as nat);
        lemma_extend(start, done, next);
        done = done + next;
    }
    validate_motion_entry("wiggle_retreat_percent", m.wiggle_retreat, MAX_WIGGLE_RETREAT_PERCENT, problems);
    proof {
        let next = motion_entry_problems("wiggle_retreat_percent"@, m.wiggle_retreat, MAX_WIGGLE_RETREAT_PERCENT as nat);
        lemma_extend(start, done, next);
        done = done + next;
    }
    validate_motion_entry("blower_on_percent", m.blower_on, MAX_BLOWER_ON_PERCENT, problems);
    proof {
        let next = motion_entry_problems("blower_on_percent"@, m.blower_on, MAX_BLOWER_ON_PERCENT as nat);
        lemma_extend(start, done, next);
        done = done + next;
    }
    validate_motion_entry("vacuum_off_percent", m.vacuum_off, MAX_VACUUM_OFF_PERCENT, problems);
    proof {
        let next = motion_entry_problems("vacuum_off_percent"@, m.vacuum_off, MAX_VACUUM_OFF_PERCENT as nat);
        lemma_extend(start, done, next);
        done = done + next;
    }
    validate_motion_entry("final_lift_percent", m.final_lift, MAX_FINAL_LIFT_PERCENT, problems);
    proof {
        let next = motion_entry_problems("final_lift_percent"@, m.final_lift, MAX_FINAL_LIFT_PERCENT as nat);
        lemma_extend(start, done, next);
        done = done + next;
    }
    validate_motion_entry("blower_off_descent_percent", m.blower_off_descent, MAX_BLOWER_OFF_DESCENT_PERCENT, problems);
    proof {
        let next = motion_entry_problems("blower_off_descent_percent"@, m.blower_off_descent, MAX_BLOWER_OFF_DESCENT_PERCENT as nat);
        lemma_extend(start, done, next);
        done = done + next;
    }
    validate_motion_entry("touchdown_press_percent", m.touchdown_press, MAX_TOUCHDOWN_PRESS_PERCENT, problems);
    proof {
        let next = motion_entry_problems("touchdown_press_percent"@, m.touchdown_press, MAX_TOUCHDOWN_PRESS_PERCENT as nat);
        lemma_extend(start, done, next);
        done = done + next;
    }
    push_problem(
        problems,
        !m.anchors_safely_ordered,
        "motion Lift-percentage anchors must be safely ordered".to_owned(),
    );
    proof {
        let next = problem_if(
            !m.anchors_safely_ordered,
            "motion Lift-percentage anchors must be safely ordered"@,
        );
        lemma_extend(start, done, next);
        done = done + next;
        assert(done == motion_problems(*m));
    }
}

/// Every structural problem of a decoded profile, in the order they are
/// reported; none means the profile may be used.
pub fn validate_profile(p: &ProfileFacts) -> (problems: Vec<String>)
    ensures
        texts_view(problems@) == profile_problems(*p),
{
    let mut problems: Vec<String> = Vec::new();
    push_problem(&mut problems, p.schema_version != 1, "schema_version must be 1".to_owned());
    validate_required_string("boards.ligature_path", p.boards.ligature_path.as_str(), &mut problems);
    validate_required_string(
        "boards.monospace_path",
        p.boards.monospace_path.as_str(),
        &mut problems,
    );
    let same_boards = p.boards.ligature_path == p.boards.monospace_path;
    push_problem(&mut problems, same_boards, "board paths must be distinct".to_owned());
    validate_camera("cameras.left", &p.cameras.left, &mut problems);
    validate_camera("cameras.right", &p.cameras.right, &mut problems);
    let same_cameras = p.cameras.left.identity == p.cameras.right.identity;
    push_problem(
        &mut problems,
        same_cameras,
        "Camera-role identities must be distinct".to_owned(),
    );
    push_problem(&mut problems, p.data_root_empty, "data_root must not be empty".to_owned());
    validate_positive_finite("page_width.minimum_mm", p.reals.page_width_minimum, &mut problems);
    validate_positive_finite("page_width.maximum_mm", p.reals.page_width_maximum, &mut problems);
    push_problem(
        &mut problems,
        p.reals.page_width_inverted,
        "page-width bounds must be ordered".to_owned(),
    );
    validate_positive_timeout("timeouts.device_open_ms", p.timeouts.device_open_ms, &mut problems);
    validate_positive_timeout("timeouts.command_ms", p.timeouts.command_ms, &mut problems);
    validate_positive_timeout(
        "timeouts.camera_capture_ms",
        p.timeouts.camera_capture_ms,
        &mut problems,
    );
    validate_timeout(
        "timeouts.stop_terminal_ms",
        p.timeouts.stop_terminal_ms,
        MAX_STOP_TERMINAL_MS,
        &mut problems,
    );
    validate_positive_finite(
        "pickup.vacuum_working_drop_mbar",
        p.reals.vacuum_working_drop,
        &mut problems,
    );
    validate_positive_finite("pickup.pickup_drop_mbar", p.reals.pickup_drop, &mut problems);
    push_problem(
        &mut problems,
        p.reals.pickup_inverted,
        "pickup thresholds must be ordered".to_owned(),
    );
    push_problem(
        &mut problems,
        p.confirmation_samples == 0,
        "pickup.confirmation_samples must be positive".to_owned(),
    );
    validate_motion(&p.reals.motion, &mut problems);
    assert(texts_view(problems@) =~= profile_problems(*p));
    problems
}

/// Where the Machine profile is looked for.
#[derive(Clone, Copy, Debug, PartialEq, Eq, Structural)]
pub enum ProfileLocation {
    /// The path given on the command line.
    Explicit,
    /// `$XDG_CONFIG_HOME/sans/sans.toml`.
    ConfigHome,
    /// `$HOME/.config/sans/sans.toml`.
    Home,
}

/// Profile path below `$XDG_CONFIG_HOME`.
pub const CONFIG_HOME_PROFILE: &'static str = "sans/sans.toml";

/// Profile path below `$HOME`.
pub const HOME_PROFILE: &'static str = ".config/sans/sans.toml";

/// Picks the profile location: an explicit path, else a nonempty
/// `XDG_CONFIG_HOME`, else a nonempty `HOME`; none where neither is set.
pub fn profile_location(explicit: bool, config_home_set: bool, home_set: bool) -> (r: Option<
    ProfileLocation,
>)
    ensures
        explicit ==> r == Some(ProfileLocation::Explicit),
        !explicit && config_home_set ==> r == Some(ProfileLocation::ConfigHome),
        !explicit && !config_home_set && home_set ==> r == Some(ProfileLocation::Home),
        !explicit && !config_home_set && !home_set ==> r is None,
{
    if explicit {
        Some(ProfileLocation::Explicit)
    } else if config_home_set {
        Some(ProfileLocation::ConfigHome)
    } else if home_set {
        Some(ProfileLocation::Home)
    } else {
        None
    }
}

/// A Camera role is reported without a problem exactly when its identity is
/// commissioned and stable, its rotation is one of 0, 90, 180 and 270
/// degrees, and its crop is nonempty and does not overflow; a rotation
/// outside those four always reports the quarter-turn problem.
pub proof fn law_camera_problems_exactly(name: Seq<char>, camera: CameraRoleProfile)
    ensures
        camera_problems(name, camera).len() == 0 <==> ({
            let id = camera.identity@;
            &&& !needs_commissioning(id)
            &&& (has_prefix(id, "/dev/v4l/by-id/"@) || has_prefix(id, "/dev/v4l/by-path/"@))
            &&& (camera.rotation_degrees == 0 || camera.rotation_degrees == 90
                || camera.rotation_degrees == 180 || camera.rotation_degrees == 270)
            &&& camera.crop.width != 0 && camera.crop.height != 0
            &&& camera.crop.x + camera.crop.width <= u32::MAX
            &&& camera.crop.y + camera.crop.height <= u32::MAX
        }),
        !(camera.rotation_degrees == 0 || camera.rotation_degrees == 90
            || camera.rotation_degrees == 180 || camera.rotation_degrees == 270)
            ==> camera_problems(name, camera).contains(
            name + ".rotation_degrees must be a quarter turn"@,
        ),
{
    let a = required_string_problems(name + ".identity"@, camera.identity@);
    let rot = !(camera.rotation_degrees == 0 || camera.rotation_degrees == 90
        || camera.rotation_degrees == 180 || camera.rotation_degrees == 270);
    let m = name + ".rotation_degrees must be a quarter turn"@;
    if rot {
        let id = camera.identity@;
        let b = problem_if(
            !has_prefix(id, "/dev/v4l/by-id/"@) && !has_prefix(id, "/dev/v4l/by-path/"@),
            name + ".identity must use a stable /dev/v4l/by-id or /dev/v4l/by-path identity"@,
        );
        let k = (a.len() + b.len()) as int;
        assert((a + b + problem_if(rot, m))[k] == m);
        let all = camera_problems(name, camera);
        assert(all[k] == m);
        assert(all.contains(m));
    }
}

/// A profile that validation accepts has commissioned, distinct board paths
/// and Camera identities, stable Camera identities, quarter-turn rotations,
/// nonempty crops that do not overflow, positive deadlines with the Stop
/// wait at most 500 ms, and every real value positive, finite, within its
/// immutable ceiling and safely ordered.
pub proof fn law_accepted_profile_is_within_bounds(p: ProfileFacts)
    requires
        profile_problems(p).len() == 0,
    ensures
        p.schema_version == 1,
        !needs_commissioning(p.boards.ligature_path@),
        !needs_commissioning(p.boards.monospace_path@),
        p.boards.ligature_path@ != p.boards.monospace_path@,
        p.cameras.left.identity@ != p.cameras.right.identity@,
        !p.data_root_empty,
        !needs_commissioning(p.cameras.left.identity@),
        !needs_commissioning(p.cameras.right.identity@),
        has_prefix(p.cameras.left.identity@, "/dev/v4l/by-id/"@) || has_prefix(
            p.cameras.left.identity@,
            "/dev/v4l/by-path/"@,
        ),
        has_prefix(p.cameras.right.identity@, "/dev/v4l/by-id/"@) || has_prefix(
            p.cameras.right.identity@,
            "/dev/v4l/by-path/"@,
        ),
        p.cameras.left.rotation_degrees == 0 || p.cameras.left.rotation_degrees == 90
            || p.cameras.left.rotation_degrees == 180 || p.cameras.left.rotation_degrees == 270,
        p.cameras.right.rotation_degrees == 0 || p.cameras.right.rotation_degrees == 90
            || p.cameras.right.rotation_degrees == 180 || p.cameras.right.rotation_degrees == 270,
        p.cameras.left.crop.width > 0 && p.cameras.left.crop.height > 0,
        p.cameras.right.crop.width > 0 && p.cameras.right.crop.height > 0,
        p.cameras.left.crop.x + p.cameras.left.crop.width <= u32::MAX,
        p.cameras.left.crop.y + p.cameras.left.crop.height <= u32::MAX,
        p.cameras.right.crop.x + p.cameras.right.crop.width <= u32::MAX,
        p.cameras.right.crop.y + p.cameras.right.crop.height <= u32::MAX,
        p.timeouts.device_open_ms > 0,
        p.timeouts.command_ms > 0,
        p.timeouts.camera_capture_ms > 0,
        0 < p.timeouts.stop_terminal_ms <= MAX_STOP_TERMINAL_MS,
        p.confirmation_samples > 0,
        p.reals.page_width_minimum.positive_finite && p.reals.page_width_maximum.positive_finite
            && !p.reals.page_width_inverted,
        p.reals.vacuum_working_drop.positive_finite && p.reals.pickup_drop.positive_finite
            && !p.reals.pickup_inverted,
        p.reals.motion.touchdown_press.positive_finite
            && !p.reals.motion.touchdown_press.above_ceiling,
        p.reals.motion.classification_start.positive_finite
            && !p.reals.motion.classification_start.above_ceiling,
        p.reals.motion.wiggle_start.positive_finite && !p.reals.motion.wiggle_start.above_ceiling,
        p.reals.motion.wiggle_retreat.positive_finite
            && !p.reals.motion.wiggle_retreat.above_ceiling,
        p.reals.motion.blower_on.positive_finite && !p.reals.motion.blower_on.above_ceiling,
        p.reals.motion.vacuum_off.positive_finite && !p.reals.motion.vacuum_off.above_ceiling,
        p.reals.motion.final_lift.positive_finite && !p.reals.motion.final_lift.above_ceiling,
        p.reals.motion.blower_off_descent.positive_finite
            && !p.reals.motion.blower_off_descent.above_ceiling,
        p.reals.motion.anchors_safely_ordered,
{
    let m = p.reals.motion;
    assert(motion_problems(m).len() == 0);
    assert(camera_problems("cameras.left"@, p.cameras.left).len() == 0);
    assert(camera_problems("cameras.right"@, p.cameras.right).len() == 0);
}

} // verus!
