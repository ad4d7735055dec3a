//! The vibration command handler for a representative two-motor device.
//!
//! The device has no incremental update opcode: every write must carry the
//! full state of both motors.  To avoid flooding the radio with identical
//! frames, a per-device command manager records the last committed speed of
//! each motor and suppresses writes that would change nothing.  The handler
//! therefore consults the manager first and, only when at least one motor's
//! value changed, renders one full-snapshot frame.
//!
//! Speeds are carried on the wire as integers scaled to `0..=100`
//! (one hundredth steps of the unit interval); the scaling from a
//! fractional command is the caller's concern, since it is a matter of
//! floating point.

use vstd::prelude::*;
use vstd::pervasive::VecAdditionalExecFns;

verus! {

/// Largest wire speed: a full-on motor.
pub const MAX_SPEED: u32 = 100;

/// One per-motor vibrate subcommand: which motor, and its new speed scaled
/// to `0..=MAX_SPEED`.
#[derive(Clone, Copy, Debug, PartialEq, Eq, Structural)]
pub struct VibrateSubcommand {
    pub index: u32,
    pub speed: u32,
}

/// Input-validation errors of the protocol handler, surfaced synchronously
/// to the caller.
#[derive(Clone, Copy, Debug, PartialEq, Eq, Structural)]
pub enum ButtplugDeviceError {
    /// More subcommands than the device declares motors.
    MotorCountMismatch { expected: usize, actual: usize },
    /// A subcommand addresses a motor the device does not have.
    MotorIndexOutOfRange { index: u32, count: usize },
}

/// The speeds after the given subcommands are applied in order; a later
/// subcommand for the same motor overrides an earlier one.
pub open spec fn spec_apply_cmds(speeds: Seq<u32>, cmds: Seq<VibrateSubcommand>) -> Seq<u32>
    decreases cmds.len(),
{
    if cmds.len() == 0 {
        speeds
    } else {
        spec_apply_cmds(speeds, cmds.drop_last()).update(
            cmds.last().index as int,
            cmds.last().speed,
        )
    }
}

/// Every subcommand addresses a motor the device has.
pub open spec fn spec_indexes_valid(cmds: Seq<VibrateSubcommand>, count: nat) -> bool {
    forall|j: int| 0 <= j < cmds.len() ==> (#[trigger] cmds[j]).index < count
}

/// Applying subcommands never changes the number of motors.
pub proof fn lemma_apply_len(speeds: Seq<u32>, cmds: Seq<VibrateSubcommand>)
    requires
        spec_indexes_valid(cmds, speeds.len()),
    ensures
        spec_apply_cmds(speeds, cmds).len() == speeds.len(),
    decreases cmds.len(),
{
    if cmds.len() > 0 {
        assert(spec_indexes_valid(cmds.drop_last(), speeds.len()));
        lemma_apply_len(speeds, cmds.drop_last());
    }
}

/// The speed of the last subcommand addressing the given motor, if any.
pub open spec fn spec_last_cmd_speed(cmds: Seq<VibrateSubcommand>, motor: int) -> Option<u32>
    decreases cmds.len(),
{
    if cmds.len() == 0 {
        Option::None
    } else if cmds.last().index == motor {
        Option::Some(cmds.last().speed)
    } else {
        spec_last_cmd_speed(cmds.drop_last(), motor)
    }
}

/// Pointwise reading of [`spec_apply_cmds`]: a motor ends at the speed of
/// the last subcommand that addresses it, or keeps its old speed.
pub proof fn lemma_apply_pointwise(speeds: Seq<u32>, cmds: Seq<VibrateSubcommand>, motor: int)
    requires
        0 <= motor < speeds.len(),
        spec_indexes_valid(cmds, speeds.len()),
    ensures
        spec_apply_cmds(speeds, cmds)[motor] == (match spec_last_cmd_speed(cmds, motor) {
            Option::Some(sp) => sp,
            Option::None => speeds[motor],
        }),
    decreases cmds.len(),
{
    if cmds.len() > 0 {
        assert(spec_indexes_valid(cmds.drop_last(), speeds.len()));
        lemma_apply_len(speeds, cmds.drop_last());
        if cmds.last().index != motor {
            lemma_apply_pointwise(speeds, cmds.drop_last(), motor);
        }
    }
}

/// Whether some subcommand addresses a motor the device lacks.
pub open spec fn spec_has_bad_index(cmds: Seq<VibrateSubcommand>, count: nat) -> bool {
    exists|j: int| 0 <= j < cmds.len() && (#[trigger] cmds[j]).index >= count
}

/// The error reported for a subcommand list with an out-of-range motor:
/// the first offending index, front to back, with the device's motor count.
pub open spec fn spec_is_first_bad_index_error(
    cmds: Seq<VibrateSubcommand>,
    count: nat,
    e: ButtplugDeviceError,
) -> bool {
    &&& e matches ButtplugDeviceError::MotorIndexOutOfRange { index, count: c }
    &&& c == count
    &&& exists|j: int|
        {
            &&& 0 <= j < cmds.len()
            &&& (#[trigger] cmds[j]).index == index
            &&& index >= count
            &&& forall|k: int| 0 <= k < j ==> (#[trigger] cmds[k]).index < count
        }
}

/// Per-device memo of the last committed speed of each motor, used to
/// suppress writes that would change nothing.
#[derive(Clone, Debug)]
pub struct GenericCommandManager {
    speeds: Vec<u32>,
}

impl View for GenericCommandManager {
    type V = Seq<u32>;

    closed spec fn view(&self) -> Seq<u32> {
        self.speeds@
    }
}

impl GenericCommandManager {
    /// Every committed speed is a wire speed.
    pub open spec fn wf(&self) -> bool {
        forall|i: int| 0 <= i < self@.len() ==> self@[i] <= MAX_SPEED
    }

    /// A fresh manager for a device with the given number of motors: no
    /// speed committed yet, every motor at rest.
    #[verifier::loop_isolation(false)]
    pub fn new(vibrator_count: usize) -> (r: GenericCommandManager)
        ensures
            r@ == Seq::new(vibrator_count as nat, |i: int| 0u32),
            r.wf(),
    {
        let mut speeds: Vec<u32> = Vec::new();
        let mut i: usize = 0;
        while i < vibrator_count
            invariant
                i <= vibrator_count,
                speeds@.len() == i,
                forall|j: int| 0 <= j < i ==> speeds@[j] == 0u32,
            decreases vibrator_count - i,
        {
            speeds.push(0);
            i += 1;
        }
        assert(speeds@ =~= Seq::new(vibrator_count as nat, |j: int| 0u32));
        GenericCommandManager { speeds }
    }

    /// The number of motors the device declares.
    pub fn vibrator_count(&self) -> (r: usize)
        ensures
            r == self@.len(),
    {
        self.speeds.len()
    }

    /// Validates the subcommands against the declared motors, commits the
    /// new speeds, and reports what changed.
    ///
    /// * Too many subcommands, or one addressing a missing motor: the
    ///   matching error, and nothing is committed.
    /// * No motor's value changed: `Ok(None)`; nothing need be written.
    /// * Otherwise `Ok(Some(v))` with one entry per motor: with
    ///   `match_all`, every entry carries the motor's (new) speed; without
    ///   it, entries of unchanged motors are `None`.
    #[verifier::loop_isolation(false)]
    pub fn update_vibration(&mut self, cmds: &Vec<VibrateSubcommand>, match_all: bool) -> (r:
        Result<Option<Vec<Option<u32>>>, ButtplugDeviceError>)
        requires
            old(self).wf(),
            forall|j: int| 0 <= j < cmds@.len() ==> (#[trigger] cmds@[j]).speed <= MAX_SPEED,
        ensures
            final(self).wf(),
            ({
                let s0 = old(self)@;
                let n = s0.len();
                if cmds@.len() > n {
                    &&& r == Err::<Option<Vec<Option<u32>>>, ButtplugDeviceError>(
                        ButtplugDeviceError::MotorCountMismatch {
                            expected: n as usize,
                            actual: cmds@.len() as usize,
                        },
                    )
                    &&& final(self)@ == s0
                } else if spec_has_bad_index(cmds@, n) {
                    &&& r matches Err(e) && spec_is_first_bad_index_error(cmds@, n, e)
                    &&& final(self)@ == s0
                } else {
                    let s1 = spec_apply_cmds(s0, cmds@);
                    &&& final(self)@ == s1
                    &&& (s1 == s0 ==> r == Ok::<Option<Vec<Option<u32>>>, ButtplugDeviceError>(
                        Option::None,
                    ))
                    &&& (s1 != s0 ==> (r matches Ok(Option::Some(v)) && v@.len() == s1.len()
                        && forall|j: int|
                        0 <= j < s1.len() ==> v@[j] == (if match_all || s1[j] != s0[j] {
                            Option::Some(s1[j])
                        } else {
                            Option::None::<u32>
                        })))
                }
            }),
    {
        let ghost s0 = self.speeds@;
        let n = self.speeds.len();
        if cmds.len() > n {
            return Err(
                ButtplugDeviceError::MotorCountMismatch { expected: n, actual: cmds.len() },
            );
        }
        // Validate every motor index before committing anything.
        let mut i: usize = 0;
        while i < cmds.len()
            invariant
                i <= cmds@.len(),
                n == self@.len(),
                forall|k: int| 0 <= k < i ==> (#[trigger] cmds@[k]).index < n,
            decreases cmds@.len() - i,
        {
            if cmds[i].index as usize >= n {
                let e = ButtplugDeviceError::MotorIndexOutOfRange { index: cmds[i].index, count: n };
                proof {
                    let jj = i as int;
                    assert(0 <= jj < cmds@.len() && (#[trigger] cmds@[jj]).index >= n);
                    assert(spec_has_bad_index(cmds@, n as nat));
                    assert(spec_is_first_bad_index_error(cmds@, n as nat, e)) by {
                        assert(cmds@[jj].index >= n);
                        assert(forall|k: int| 0 <= k < jj ==> (#[trigger] cmds@[k]).index < n);
                    }
                }
                return Err(e);
            }
            i += 1;
        }
        // Keep the old speeds for the change report.
        let mut previous: Vec<u32> = Vec::new();
        let mut j: usize = 0;
        while j < n
            invariant
                j <= n,
                n == self@.len(),
                self@ == s0,
                previous@ == s0.take(j as int),
            decreases n - j,
        {
            previous.push(self.speeds[j]);
            assert(previous@ =~= s0.take(j + 1 as int));
            j += 1;
        }
        assert(previous@ =~= s0);
        // Commit the new speeds.
        let mut c: usize = 0;
        while c < cmds.len()
            invariant
                c <= cmds@.len(),
                self@.len() == s0.len(),
                forall|k: int| 0 <= k < cmds@.len() ==> (#[trigger] cmds@[k]).index < s0.len(),
                self@ == spec_apply_cmds(s0, cmds@.take(c as int)),
            decreases cmds@.len() - c,
        {
            let cmd = cmds[c];
            self.speeds.set(cmd.index as usize, cmd.speed);
            assert(cmds@.take(c + 1 as int).drop_last() =~= cmds@.take(c as int));
            assert(cmds@.take(c + 1 as int).last() == cmds@[c as int]);
            c += 1;
        }
        assert(cmds@.take(cmds@.len() as int) =~= cmds@);
        let ghost s1 = spec_apply_cmds(s0, cmds@);
        proof {
            assert(spec_indexes_valid(cmds@, s0.len()));
            lemma_apply_len(s0, cmds@);
        }
        // Report what changed.
        let mut changed = false;
        let mut result: Vec<Option<u32>> = Vec::new();
        let mut m: usize = 0;
        while m < n
            invariant
                m <= n,
                n == s0.len(),
                self@ == s1,
                s1.len() == s0.len(),
                previous@ == s0,
                changed == exists|k: int| 0 <= k < m && s1[k] != s0[k],
                result@.len() == m,
                forall|k: int|
                    0 <= k < m ==> result@[k] == (if match_all || s1[k] != s0[k] {
                        Option::Some(s1[k])
                    } else {
                        Option::None::<u32>
                    }),
            decreases n - m,
        {
            let now = self.speeds[m];
            let before = previous[m];
            if now != before {
                changed = true;
            }
            if match_all || now != before {
                result.push(Some(now));
            } else {
                result.push(None);
            }
            m += 1;
        }
        // The new speeds stay within the wire range.
        proof {
            assert forall|k: int| 0 <= k < s1.len() implies s1[k] <= MAX_SPEED by {
                assert(spec_indexes_valid(cmds@, s0.len()));
                lemma_apply_pointwise(s0, cmds@, k);
                if spec_last_cmd_speed(cmds@, k) is Some {
                    lemma_last_cmd_speed_bounded(cmds@, k);
                }
            }
        }
        if changed {
            Ok(Some(result))
        } else {
            assert(s1 =~= s0);
            Ok(None)
        }
    }
}

/// A speed picked out of the subcommands respects the subcommands' bound.
proof fn lemma_last_cmd_speed_bounded(cmds: Seq<VibrateSubcommand>, motor: int)
    requires
        forall|j: int| 0 <= j < cmds.len() ==> (#[trigger] cmds[j]).speed <= MAX_SPEED,
        spec_last_cmd_speed(cmds, motor) is Some,
    ensures
        spec_last_cmd_speed(cmds, motor)->0 <= MAX_SPEED,
    decreases cmds.len(),
{
    if cmds.len() > 0 && cmds.last().index != motor {
        lemma_last_cmd_speed_bounded(cmds.drop_last(), motor);
    }
}

/// The 17-byte full-snapshot frame of the two-motor device: fixed header,
/// one block per motor with the motor's speed byte, and the motor number
/// as trailer of each block.  When the device has a single motor, the same
/// speed is inlined in both blocks.
pub open spec fn spec_vibrate_frame(m0: u8, m1: u8) -> Seq<u8> {
    seq![
        0x10u8,
        0xffu8,
        0x04u8,
        0x0au8,
        0x32u8,
        0x32u8,
        0x00u8,
        0x04u8,
        0x08u8,
        m0,
        0x64u8,
        0x00u8,
        0x04u8,
        0x08u8,
        m1,
        0x64u8,
        0x01u8,
    ]
}

/// Renders the frame of [`spec_vibrate_frame`].
pub fn vibrate_frame(m0: u8, m1: u8) -> (r: Vec<u8>)
    ensures
        r@ == spec_vibrate_frame(m0, m1),
{
    let mut r: Vec<u8> = Vec::new();
    r.push(0x10);
    r.push(0xff);
    r.push(0x04);
    r.push(0x0a);
    r.push(0x32);
    r.push(0x32);
    r.push(0x00);
    r.push(0x04);
    r.push(0x08);
    r.push(m0);
    r.push(0x64);
    r.push(0x00);
    r.push(0x04);
    r.push(0x08);
    r.push(m1);
    r.push(0x64);
    r.push(0x01);
    assert(r@ =~= spec_vibrate_frame(m0, m1));
    r
}

/// The protocol handler of the representative two-motor device.
///
/// It owns the per-device command manager; its handlers return the frame
/// to write to the device's transmit endpoint, or `None` when the command
/// changed nothing and nothing need be written.
#[derive(Clone, Debug)]
pub struct MagicMotionV4 {
    manager: GenericCommandManager,
}

impl View for MagicMotionV4 {
    type V = Seq<u32>;

    closed spec fn view(&self) -> Seq<u32> {
        self.manager@
    }
}

impl MagicMotionV4 {
    /// The device family has one or two motors, and every committed speed
    /// is a wire speed.
    pub open spec fn wf(&self) -> bool {
        &&& 1 <= self@.len() <= 2
        &&& forall|i: int| 0 <= i < self@.len() ==> self@[i] <= MAX_SPEED
    }

    /// A fresh handler for a device with the given number of motors.
    pub fn new(vibrator_count: usize) -> (r: MagicMotionV4)
        requires
            1 <= vibrator_count <= 2,
        ensures
            r@ == Seq::new(vibrator_count as nat, |i: int| 0u32),
            r.wf(),
    {
        MagicMotionV4 { manager: GenericCommandManager::new(vibrator_count) }
    }

    /// Handles a vibrate command: validates it, commits the new speeds,
    /// and renders one full-snapshot frame exactly when some motor's value
    /// changed.
    ///
    /// The frame carries the new speed of each motor; a single-motor
    /// device has its one speed inlined in both blocks.
    pub fn handle_vibrate_cmd(&mut self, cmds: &Vec<VibrateSubcommand>) -> (r: Result<
        Option<Vec<u8>>,
        ButtplugDeviceError,
    >)
        requires
            old(self).wf(),
            forall|j: int| 0 <= j < cmds@.len() ==> (#[trigger] cmds@[j]).speed <= MAX_SPEED,
        ensures
            final(self).wf(),
            ({
                let s0 = old(self)@;
                let n = s0.len();
                if cmds@.len() > n {
                    &&& r == Err::<Option<Vec<u8>>, ButtplugDeviceError>(
                        ButtplugDeviceError::MotorCountMismatch {
                            expected: n as usize,
                            actual: cmds@.len() as usize,
                        },
                    )
                    &&& final(self)@ == s0
                } else if spec_has_bad_index(cmds@, n) {
                    &&& r matches Err(e) && spec_is_first_bad_index_error(cmds@, n, e)
                    &&& final(self)@ == s0
                } else {
                    let s1 = spec_apply_cmds(s0, cmds@);
                    &&& final(self)@ == s1
                    &&& (s1 == s0 ==> r == Ok::<Option<Vec<u8>>, ButtplugDeviceError>(
                        Option::None,
                    ))
                    &&& (s1 != s0 ==> (r matches Ok(Option::Some(frame)) && frame@
                        == spec_vibrate_frame(
                        s1[0] as u8,
                        (if s1.len() == 1 {
                            s1[0]
                        } else {
                            s1[1]
                        }) as u8,
                    )))
                }
            }),
    {
        let result = self.manager.update_vibration(cmds, true);
        match result {
            Err(e) => Err(e),
            Ok(None) => Ok(None),
            Ok(Some(v)) => {
                proof {
                    let s0 = old(self)@;
                    let n = s0.len();
                    // An out-of-range list would have been reported as an error.
                    assert(cmds@.len() <= n && !spec_has_bad_index(cmds@, n));
                    assert(spec_indexes_valid(cmds@, n));
                    lemma_apply_len(s0, cmds@);
                    let s1 = spec_apply_cmds(s0, cmds@);
                    // An unchanged state would have been reported as `None`.
                    assert(s1 != s0);
                    assert(v@.len() == s1.len() == n);
                }
                let m0 = match v[0] {
                    Some(x) => x,
                    None => 0,
                };
                let m1 = if v.len() == 1 {
                    m0
                } else {
                    match v[1] {
                        Some(x) => x,
                        None => 0,
                    }
                };
                let frame = vibrate_frame(m0 as u8, m1 as u8);
                Ok(Some(frame))
            },
        }
    }

    /// Handles a stop command: equivalent to a vibrate command with every
    /// motor at speed zero.
    pub fn handle_stop_device_cmd(&mut self) -> (r: Result<Option<Vec<u8>>, ButtplugDeviceError>)
        requires
            old(self).wf(),
        ensures
            final(self).wf(),
            final(self)@ == Seq::new(old(self)@.len(), |i: int| 0u32),
            ({
                let zeros = Seq::new(old(self)@.len(), |i: int| 0u32);
                &&& (old(self)@ == zeros ==> r == Ok::<Option<Vec<u8>>, ButtplugDeviceError>(
                    Option::None,
                ))
                &&& (old(self)@ != zeros ==> (r matches Ok(Option::Some(frame)) && frame@
                    == spec_vibrate_frame(0, 0)))
            }),
    {
        let ghost s0 = self@;
        let count = self.manager.vibrator_count();
        let mut cmds: Vec<VibrateSubcommand> = Vec::new();
        let mut i: usize = 0;
        while i < count
            invariant
                i <= count,
                cmds@.len() == i,
                forall|j: int|
                    0 <= j < i ==> #[trigger] cmds@[j] == (VibrateSubcommand {
                        index: j as u32,
                        speed: 0u32,
                    }),
            decreases count - i,
        {
            cmds.push(VibrateSubcommand { index: i as u32, speed: 0 });
            i += 1;
        }
        proof {
            let zeros = Seq::new(s0.len(), |k: int| 0u32);
            assert(spec_indexes_valid(cmds@, s0.len()));
            lemma_apply_len(s0, cmds@);
            assert forall|k: int| 0 <= k < s0.len() implies spec_apply_cmds(s0, cmds@)[k]
                == 0u32 by {
                lemma_apply_pointwise(s0, cmds@, k);
                lemma_last_zero_cmd(cmds@, k);
            }
            assert(spec_apply_cmds(s0, cmds@) =~= zeros);
            if s0 == zeros {
                assert(spec_apply_cmds(s0, cmds@) == s0);
            }
            if s0 != zeros {
                assert(spec_apply_cmds(s0, cmds@) != s0);
            }
        }
        self.handle_vibrate_cmd(&cmds)
    }
}

/// In a list of zero-speed subcommands addressing every motor in order,
/// the last subcommand for a present motor exists and carries speed zero.
proof fn lemma_last_zero_cmd(cmds: Seq<VibrateSubcommand>, motor: int)
    requires
        0 <= motor < cmds.len(),
        forall|j: int|
            0 <= j < cmds.len() ==> #[trigger] cmds[j] == (VibrateSubcommand {
                index: j as u32,
                speed: 0u32,
            }),
        cmds.len() <= u32::MAX,
    ensures
        spec_last_cmd_speed(cmds, motor) == Option::Some(0u32),
    decreases cmds.len(),
{
    if cmds.last().index != motor {
        lemma_last_zero_cmd(cmds.drop_last(), motor);
    }
}

/// Repeating a vibrate command is suppressed: committing the same
/// subcommands twice leaves the speeds of the first commit unchanged, so
/// the handler's contract returns no second frame for an identical
/// repeat.
pub proof fn lemma_vibrate_repeat_suppressed(speeds: Seq<u32>, cmds: Seq<VibrateSubcommand>)
    requires
        spec_indexes_valid(cmds, speeds.len()),
    ensures
        spec_apply_cmds(spec_apply_cmds(speeds, cmds), cmds) == spec_apply_cmds(speeds, cmds),
{
    let s1 = spec_apply_cmds(speeds, cmds);
    lemma_apply_len(speeds, cmds);
    lemma_apply_len(s1, cmds);
    assert forall|i: int| 0 <= i < s1.len() implies spec_apply_cmds(s1, cmds)[i] == s1[i] by {
        lemma_apply_pointwise(speeds, cmds, i);
        lemma_apply_pointwise(s1, cmds, i);
    }
    assert(spec_apply_cmds(s1, cmds) =~= s1);
}

} // verus!
