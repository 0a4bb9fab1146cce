//! What holds of plans carried out on a register file.

use crate::ec::{MSI_ADDRESS_COOLER_BOOST, MSI_ADDRESS_SHIFT_MODE, MSI_ADDRESS_SUPER_BATTERY};
use crate::fan::COOLER_BOOST_BIT;
use crate::registers::{apply_op, run, EcOp, REGISTER_COUNT};
use crate::scenario::{info_from, scenario_plan, settings_for, settings_plan, UserScenario};
use crate::scenario::SettingsView;
use vstd::prelude::*;

verus! {

/// A plan changes no register's existence: the register file keeps its
/// length.
pub proof fn lemma_run_len(regs: Seq<u8>, plan: Seq<EcOp>)
    requires
        regs.len() == REGISTER_COUNT,
    ensures
        run(regs, plan).len() == REGISTER_COUNT,
    decreases plan.len(),
{
    if plan.len() > 0 {
        lemma_run_len(regs, plan.drop_last());
    }
}

/// Carrying out two plans one after the other is carrying out their
/// concatenation.
pub proof fn lemma_run_concat(regs: Seq<u8>, first: Seq<EcOp>, second: Seq<EcOp>)
    ensures
        run(regs, first + second) == run(run(regs, first), second),
    decreases second.len(),
{
    if second.len() == 0 {
        assert(first + second =~= first);
    } else {
        lemma_run_concat(regs, first, second.drop_last());
        assert((first + second).drop_last() =~= first + second.drop_last());
        assert((first + second).last() == second.last());
    }
}

/// A register that no operation of a plan targets holds afterwards what it
/// held before.
pub proof fn lemma_untouched(regs: Seq<u8>, plan: Seq<EcOp>, address: u8)
    requires
        regs.len() == REGISTER_COUNT,
        forall|k: int| 0 <= k < plan.len() ==> (#[trigger] plan[k]).target() != address,
    ensures
        run(regs, plan)[address as int] == regs[address as int],
    decreases plan.len(),
{
    if plan.len() > 0 {
        let head = plan.drop_last();
        assert forall|k: int| 0 <= k < head.len() implies (#[trigger] head[k]).target()
            != address by {
            assert(head[k] == plan[k]);
        }
        lemma_untouched(regs, head, address);
        lemma_run_len(regs, head);
        assert(plan.last() == plan[plan.len() - 1]);
    }
}

/// A register holds the value of the last write to it, if no later
/// operation of the plan targets it.
pub proof fn lemma_last_write_wins(regs: Seq<u8>, plan: Seq<EcOp>, k: int)
    requires
        regs.len() == REGISTER_COUNT,
        0 <= k < plan.len(),
        plan[k] is Write,
        forall|j: int| k < j < plan.len() ==> (#[trigger] plan[j]).target() != plan[k].target(),
    ensures
        run(regs, plan)[plan[k].target() as int] == plan[k]->Write_value,
    decreases plan.len(),
{
    let head = plan.drop_last();
    lemma_run_len(regs, head);
    if k < plan.len() - 1 {
        assert(head[k] == plan[k]);
        assert forall|j: int| k < j < head.len() implies (#[trigger] head[j]).target()
            != head[k].target() by {
            assert(head[j] == plan[j]);
        }
        lemma_last_write_wins(regs, head, k);
        assert(plan.last() == plan[plan.len() - 1]);
    }
}

/// A byte written to a register is the byte read back from it.
pub proof fn lemma_write_then_read(regs: Seq<u8>, address: u8, value: u8)
    requires
        regs.len() == REGISTER_COUNT,
    ensures
        apply_op(regs, EcOp::Write { address, value })[address as int] == value,
        forall|other: u8|
            other != address ==> apply_op(regs, EcOp::Write { address, value })[other as int]
                == regs[other as int],
{
}

/// The bits of a register that survive a plan.
pub open spec fn kept_bits(plan: Seq<EcOp>, address: u8) -> u8
    decreases plan.len(),
{
    if plan.len() == 0 {
        0xFF
    } else {
        let before = kept_bits(plan.drop_last(), address);
        match plan.last() {
            EcOp::Write { address: target, .. } => if target == address {
                0
            } else {
                before
            },
            EcOp::Update { address: target, mask, set } => if target == address && !set {
                before & !mask
            } else {
                before
            },
        }
    }
}

/// The bits of a register that a plan sets, whatever the register held.
pub open spec fn forced_bits(plan: Seq<EcOp>, address: u8) -> u8
    decreases plan.len(),
{
    if plan.len() == 0 {
        0
    } else {
        let before = forced_bits(plan.drop_last(), address);
        match plan.last() {
            EcOp::Write { address: target, value } => if target == address {
                value
            } else {
                before
            },
            EcOp::Update { address: target, mask, set } => if target != address {
                before
            } else if set {
                before | mask
            } else {
                before & !mask
            },
        }
    }
}

/// After a plan each register holds the bits that survived of what it held
/// before, joined with the bits the plan set.
pub proof fn lemma_run_by_bits(regs: Seq<u8>, plan: Seq<EcOp>, address: u8)
    requires
        regs.len() == REGISTER_COUNT,
    ensures
        run(regs, plan)[address as int] == (regs[address as int] & kept_bits(plan, address))
            | forced_bits(plan, address),
    decreases plan.len(),
{
    let x = regs[address as int];
    if plan.len() == 0 {
        assert((x & 0xFF) | 0 == x) by (bit_vector);
    } else {
        let head = plan.drop_last();
        lemma_run_by_bits(regs, head, address);
        lemma_run_len(regs, head);
        let a = kept_bits(head, address);
        let b = forced_bits(head, address);
        match plan.last() {
            EcOp::Write { address: target, value } => {
                if target == address {
                    assert((x & 0) | value == value) by (bit_vector);
                }
            },
            EcOp::Update { address: target, mask, set } => {
                if target == address {
                    if set {
                        assert(((x & a) | b) | mask == (x & a) | (b | mask)) by (bit_vector);
                    } else {
                        assert(((x & a) | b) & !mask == (x & (a & !mask)) | (b & !mask))
                            by (bit_vector);
                    }
                }
            },
        }
    }
}

/// Carrying out a plan a second time changes nothing.
pub proof fn lemma_run_twice(regs: Seq<u8>, plan: Seq<EcOp>)
    requires
        regs.len() == REGISTER_COUNT,
    ensures
        run(run(regs, plan), plan) == run(regs, plan),
{
    let once = run(regs, plan);
    let twice = run(once, plan);
    lemma_run_len(regs, plan);
    lemma_run_len(once, plan);
    assert forall|i: int| 0 <= i < REGISTER_COUNT implies twice[i] == once[i] by {
        let address = i as u8;
        lemma_run_by_bits(regs, plan, address);
        lemma_run_by_bits(once, plan, address);
        let x = regs[i];
        let a = kept_bits(plan, address);
        let b = forced_bits(plan, address);
        assert((((x & a) | b) & a) | b == (x & a) | b) by (bit_vector);
    }
    assert(twice =~= once);
}

/// Applying the same settings twice leaves the registers as applying them
/// once.
pub proof fn lemma_settings_idempotent(regs: Seq<u8>, settings: SettingsView)
    requires
        regs.len() == REGISTER_COUNT,
    ensures
        run(run(regs, settings_plan(settings)), settings_plan(settings)) == run(
            regs,
            settings_plan(settings),
        ),
{
    lemma_run_twice(regs, settings_plan(settings));
}

/// Applying the same scenario twice leaves the registers as applying it
/// once.
pub proof fn lemma_scenario_idempotent(regs: Seq<u8>, scenario: UserScenario)
    requires
        regs.len() == REGISTER_COUNT,
    ensures
        run(run(regs, scenario_plan(scenario)), scenario_plan(scenario)) == run(
            regs,
            scenario_plan(scenario),
        ),
{
    lemma_run_twice(regs, scenario_plan(scenario));
}

/// Switching the cooler boost on and then off leaves bits 0 to 6 of its
/// register as they were, clears bit 7 and changes no other register.
pub proof fn lemma_boost_on_off(regs: Seq<u8>)
    requires
        regs.len() == REGISTER_COUNT,
    ensures
        ({
            let on = seq![
                EcOp::Update { address: MSI_ADDRESS_COOLER_BOOST, mask: COOLER_BOOST_BIT, set: true },
            ];
            let off = seq![
                EcOp::Update { address: MSI_ADDRESS_COOLER_BOOST, mask: COOLER_BOOST_BIT, set: false },
            ];
            let after = run(run(regs, on), off);
            let before = regs[MSI_ADDRESS_COOLER_BOOST as int];
            &&& after == regs.update(MSI_ADDRESS_COOLER_BOOST as int, before & 0x7F)
            &&& after[MSI_ADDRESS_COOLER_BOOST as int] & 0x7F == before & 0x7F
            &&& after[MSI_ADDRESS_COOLER_BOOST as int] & COOLER_BOOST_BIT == 0
        }),
{
    let on = seq![
        EcOp::Update { address: MSI_ADDRESS_COOLER_BOOST, mask: COOLER_BOOST_BIT, set: true },
    ];
    let off = seq![
        EcOp::Update { address: MSI_ADDRESS_COOLER_BOOST, mask: COOLER_BOOST_BIT, set: false },
    ];
    let before = regs[MSI_ADDRESS_COOLER_BOOST as int];
    assert(on.drop_last() =~= Seq::<EcOp>::empty());
    assert(off.drop_last() =~= Seq::<EcOp>::empty());
    assert(run(regs, on.drop_last()) == regs);
    let mid = run(regs, on);
    assert(mid == regs.update(MSI_ADDRESS_COOLER_BOOST as int, before | 0x80));
    assert(run(mid, off.drop_last()) == mid);
    let after = run(mid, off);
    assert((before | 0x80) & !0x80u8 == before & 0x7F) by (bit_vector);
    assert((before & 0x7F) & 0x7F == before & 0x7F) by (bit_vector);
    assert((before & 0x7F) & 0x80 == 0) by (bit_vector);
    assert(after =~= regs.update(MSI_ADDRESS_COOLER_BOOST as int, before & 0x7F));
}

/// Every operation of a settings plan after the first two targets a
/// register other than the shift mode and super battery registers.
proof fn lemma_settings_tail_targets(settings: SettingsView, k: int)
    requires
        2 <= k < settings_plan(settings).len(),
    ensures
        settings_plan(settings)[k].target() != MSI_ADDRESS_SHIFT_MODE,
        settings_plan(settings)[k].target() != MSI_ADDRESS_SUPER_BATTERY,
{
}

/// After a scenario other than `Custom` has been applied, detection
/// reports that scenario, whatever the registers held before.
pub proof fn lemma_applied_scenario_detected(regs: Seq<u8>, scenario: UserScenario)
    requires
        regs.len() == REGISTER_COUNT,
        scenario != UserScenario::Custom,
    ensures
        ({
            let after = run(regs, scenario_plan(scenario));
            info_from(
                after[MSI_ADDRESS_SHIFT_MODE as int],
                after[MSI_ADDRESS_SUPER_BATTERY as int],
            ).current_scenario == scenario
        }),
{
    let settings = settings_for(scenario)->Some_0;
    lemma_settings_detected(regs, settings);
}

/// After settings have been applied, the shift mode and super battery
/// registers hold what the settings say, and detection reports the
/// settings' shift mode and super battery flag.
pub proof fn lemma_settings_detected(regs: Seq<u8>, settings: SettingsView)
    requires
        regs.len() == REGISTER_COUNT,
    ensures
        ({
            let after = run(regs, settings_plan(settings));
            let info = info_from(
                after[MSI_ADDRESS_SHIFT_MODE as int],
                after[MSI_ADDRESS_SUPER_BATTERY as int],
            );
            &&& info.shift_mode == settings.shift_mode
            &&& info.super_battery == settings.super_battery
        }),
{
    let plan = settings_plan(settings);
    assert forall|j: int| 0 < j < plan.len() implies (#[trigger] plan[j]).target()
        != plan[0].target() by {
        if j >= 2 {
            lemma_settings_tail_targets(settings, j);
        }
    }
    assert forall|j: int| 1 < j < plan.len() implies (#[trigger] plan[j]).target()
        != plan[1].target() by {
        lemma_settings_tail_targets(settings, j);
    }
    lemma_last_write_wins(regs, plan, 0);
    lemma_last_write_wins(regs, plan, 1);
    assert(1u8 & 1u8 != 0) by (bit_vector);
    assert(0u8 & 1u8 == 0) by (bit_vector);
}

} // verus!
