//! Properties that hold across the records this library builds.
use vstd::prelude::*;
use crate::bytes::le_at;
use crate::layout::{lemma_le_at_is_weighted_sum, lemma_weighted_sum_zero, weighted_sum};
use crate::error_log::{populated_entries, NvmeErrorLog, NvmeErrorLogEntry};
use crate::identify::{id_ctrl_serial, CtrlIdentity};
use crate::ocp::{OcpSmartData, OcpSmartExtendedLog};
use crate::smart::{reported_sensors, sensor_readings, NvmeSmartLog};

verus! {

broadcast use vstd::seq_lib::group_filter_ensures;

/// Every record built for one device from the same Identify Controller data
/// identifies itself the same way: the same device name and the same serial
/// number, so the records can be matched up when handled apart.
pub proof fn lemma_records_agree_on_identity(
    nvme_name: Seq<char>,
    id_ctrl: Seq<u8>,
    identity: CtrlIdentity,
    smart: NvmeSmartLog,
    smart_page: Seq<u8>,
    errors: NvmeErrorLog,
    error_entries: Seq<[u8; 64]>,
    ocp: OcpSmartData,
    ocp_page: OcpSmartExtendedLog,
)
    requires
        identity.built_from(nvme_name, id_ctrl),
        smart.built_from(nvme_name, id_ctrl_serial(id_ctrl), smart_page),
        errors.built_from(nvme_name, id_ctrl_serial(id_ctrl), error_entries),
        ocp.built_from(nvme_name, id_ctrl_serial(id_ctrl), ocp_page),
    ensures
        smart.serial_number@ == identity.serial_number@,
        errors.serial_number@ == identity.serial_number@,
        ocp.serial_number@ == identity.serial_number@,
        smart.nvme_name@ == identity.nvme_name@,
        errors.nvme_name@ == identity.nvme_name@,
        ocp.nvme_name@ == identity.nvme_name@,
{
}

/// The error log holds only populated entries: each has a nonzero Error
/// Count, there are no more of them than raw entries, and a controller whose
/// entries are all unused yields an empty log.
pub proof fn lemma_error_log_only_populated(
    log: NvmeErrorLog,
    nvme_name: Seq<char>,
    serial_number: Seq<char>,
    raw: Seq<[u8; 64]>,
)
    requires
        log.built_from(nvme_name, serial_number, raw),
    ensures
        forall|i: int| 0 <= i < log.entries@.len() ==> #[trigger] log.entries@[i].error_count != 0,
        log.entries@.len() <= raw.len(),
        (forall|j: int| 0 <= j < raw.len() ==> le_at(#[trigger] raw[j]@, 0, 8) == 0) ==> log.entries@.len() == 0,
{
    let keep = |e: [u8; 64]| le_at(e@, 0, 8) != 0;
    assert forall|i: int| 0 <= i < log.entries@.len() implies #[trigger] log.entries@[i].error_count != 0 by {
        assert(log.entries@[i].built_from(populated_entries(raw)[i]@));
        assert(keep(raw.filter(keep)[i]));
    }
    if forall|j: int| 0 <= j < raw.len() ==> le_at(#[trigger] raw[j]@, 0, 8) == 0 {
        if log.entries@.len() > 0 {
            let e = raw.filter(keep)[0];
            assert(keep(e));
            assert(raw.filter(keep).contains(e));
            lemma_filtered_comes_from(raw, keep, 0);
        }
    }
}

/// The positions, in order, of the elements of `s` that `p` keeps.
pub open spec fn kept_positions<A>(s: Seq<A>, p: spec_fn(A) -> bool) -> Seq<int>
    decreases s.len(),
{
    if s.len() == 0 {
        Seq::empty()
    } else {
        let r = kept_positions(s.drop_last(), p);
        if p(s.last()) {
            r.push(s.len() - 1)
        } else {
            r
        }
    }
}

/// Filtering keeps, in their order, exactly the elements that satisfy the
/// predicate: the kept positions rise, each holds a kept element, and every
/// element that satisfies the predicate is at one of them.
pub proof fn lemma_kept_positions<A>(s: Seq<A>, p: spec_fn(A) -> bool)
    ensures
        kept_positions(s, p).len() == s.filter(p).len(),
        forall|i: int|
            0 <= i < kept_positions(s, p).len() ==> 0 <= #[trigger] kept_positions(s, p)[i] < s.len()
                && p(s[kept_positions(s, p)[i]]) && s.filter(p)[i] == s[kept_positions(s, p)[i]],
        forall|i: int, j: int|
            #![trigger kept_positions(s, p)[i], kept_positions(s, p)[j]]
            0 <= i < j < kept_positions(s, p).len() ==> kept_positions(s, p)[i] < kept_positions(s, p)[j],
        forall|k: int|
            #![trigger s[k]]
            0 <= k < s.len() && p(s[k]) ==> exists|i: int|
                0 <= i < kept_positions(s, p).len() && #[trigger] kept_positions(s, p)[i] == k,
    decreases s.len(),
{
    reveal(Seq::filter);
    if s.len() > 0 {
        let t = s.drop_last();
        lemma_kept_positions(t, p);
        let r = kept_positions(t, p);
        let idx = kept_positions(s, p);
        assert forall|i: int| 0 <= i < r.len() implies #[trigger] idx[i] == r[i] by {}
        assert forall|k: int| #![trigger s[k]] 0 <= k < s.len() && p(s[k]) implies exists|i: int|
            0 <= i < idx.len() && #[trigger] idx[i] == k by {
            if k < s.len() - 1 {
                assert(t[k] == s[k]);
                let i = choose|i: int| 0 <= i < r.len() && #[trigger] r[i] == k;
                assert(idx[i] == k);
            } else {
                assert(idx[idx.len() - 1] == k);
            }
        }
    }
}

/// An Error Information log entry holds an error: some byte of its Error
/// Count (bytes 7:0) is not zero.
pub open spec fn holds_error(e: Seq<u8>) -> bool {
    exists|k: int| 0 <= k < 8 && #[trigger] e[k] != 0
}

/// `idx` picks, in log order, the raw entries that `entries` were decoded
/// from, and it picks exactly the raw entries that hold an error.
pub open spec fn selects_populated(entries: Seq<NvmeErrorLogEntry>, raw: Seq<[u8; 64]>, idx: Seq<int>) -> bool {
    &&& idx.len() == entries.len()
    &&& forall|i: int, j: int| #![trigger idx[i], idx[j]] 0 <= i < j < idx.len() ==> idx[i] < idx[j]
    &&& forall|i: int|
        0 <= i < idx.len() ==> 0 <= #[trigger] idx[i] < raw.len() && holds_error(raw[idx[i]]@)
            && entries[i].built_from(raw[idx[i]]@) && entries[i].error_count == weighted_sum(
            raw[idx[i]]@,
            0,
            8,
        )
    &&& forall|k: int|
        #![trigger raw[k]]
        0 <= k < raw.len() && holds_error(raw[k]@) ==> exists|i: int| 0 <= i < idx.len() && #[trigger] idx[i] == k
}

/// The error log is every raw entry that holds an error, in log order, and
/// nothing else: an entry whose Error Count is not zero is never dropped,
/// whatever its other fields say.
pub proof fn lemma_error_log_is_every_populated_entry(
    log: NvmeErrorLog,
    nvme_name: Seq<char>,
    serial_number: Seq<char>,
    raw: Seq<[u8; 64]>,
)
    requires
        log.built_from(nvme_name, serial_number, raw),
    ensures
        exists|idx: Seq<int>| selects_populated(log.entries@, raw, idx),
        log.entries@.len() == raw.filter(|e: [u8; 64]| holds_error(e@)).len(),
{
    let keep = |e: [u8; 64]| le_at(e@, 0, 8) != 0;
    let keep2 = |e: [u8; 64]| holds_error(e@);
    assert forall|e: [u8; 64]| #[trigger] keep(e) == keep2(e) by {
        assert(e@.len() == 64);
        lemma_le_at_is_weighted_sum(e@, 0, 8);
        lemma_weighted_sum_zero(e@, 0, 8);
        if keep2(e) {
            let k = choose|k: int| 0 <= k < 8 && #[trigger] e@[k] != 0;
            assert(e@[0 + k] != 0);
        } else {
            assert forall|k: int| 0 <= k < 0 + 8 implies #[trigger] e@[k] == 0 by {
                assert(!(e@[k] != 0));
            }
        }
    }
    assert(keep == keep2);
    lemma_kept_positions(raw, keep);
    let idx = kept_positions(raw, keep);
    assert forall|i: int| 0 <= i < idx.len() implies 0 <= #[trigger] idx[i] < raw.len() && holds_error(
        raw[idx[i]]@,
    ) && log.entries@[i].built_from(raw[idx[i]]@) && log.entries@[i].error_count == weighted_sum(
        raw[idx[i]]@,
        0,
        8,
    ) by {
        assert(log.entries@[i].built_from(populated_entries(raw)[i]@));
        assert(keep2(raw[idx[i]]));
        lemma_le_at_is_weighted_sum(raw[idx[i]]@, 0, 8);
    }
    assert forall|k: int| #![trigger raw[k]] 0 <= k < raw.len() && holds_error(raw[k]@) implies exists|i: int|
        0 <= i < idx.len() && #[trigger] idx[i] == k by {
        assert(keep(raw[k]));
    }
    assert(selects_populated(log.entries@, raw, idx));
}

/// `idx` picks, in sensor order, the sensors whose readings `sensors`
/// holds, and it picks exactly the sensors whose reading is not zero.
pub open spec fn selects_nonzero_sensors(sensors: Seq<u16>, raw: Seq<u8>, idx: Seq<int>) -> bool {
    &&& idx.len() == sensors.len()
    &&& forall|i: int, j: int| #![trigger idx[i], idx[j]] 0 <= i < j < idx.len() ==> idx[i] < idx[j]
    &&& forall|i: int|
        0 <= i < idx.len() ==> 0 <= #[trigger] idx[i] < 8 && sensors[i] != 0 && sensors[i]
            == weighted_sum(raw, 200 + 2 * idx[i], 2)
    &&& forall|k: int|
        0 <= k < 8 && #[trigger] weighted_sum(raw, 200 + 2 * k, 2) != 0 ==> exists|i: int|
            0 <= i < idx.len() && #[trigger] idx[i] == k
}

/// The recorded temperature sensors are, in sensor order, exactly the
/// sensors whose reading (a little-endian `u16` at byte 200 + 2k, k < 8) is
/// not zero.
pub proof fn lemma_temp_sensors_are_the_nonzero_readings(
    s: NvmeSmartLog,
    nvme_name: Seq<char>,
    serial_number: Seq<char>,
    raw: Seq<u8>,
)
    requires
        s.built_from(nvme_name, serial_number, raw),
        raw.len() == 512,
    ensures
        exists|idx: Seq<int>| selects_nonzero_sensors(s.temp_sensors@, raw, idx),
{
    let all = sensor_readings(raw);
    let keep = |t: nat| t != 0;
    lemma_kept_positions(all, keep);
    let idx = kept_positions(all, keep);
    let v = s.temp_sensors@.map_values(|t: u16| t as nat);
    assert(v == all.filter(keep));
    assert forall|k: int| 0 <= k < 8 implies #[trigger] all[k] == weighted_sum(raw, 200 + 2 * k, 2) by {
        lemma_le_at_is_weighted_sum(raw, 200 + 2 * k, 2);
    }
    assert forall|i: int| 0 <= i < idx.len() implies 0 <= #[trigger] idx[i] < 8 && s.temp_sensors@[i] != 0
        && s.temp_sensors@[i] == weighted_sum(raw, 200 + 2 * idx[i], 2) by {
        assert(v[i] == s.temp_sensors@[i] as nat);
        assert(all[idx[i]] == weighted_sum(raw, 200 + 2 * idx[i], 2));
    }
    assert forall|k: int| 0 <= k < 8 && #[trigger] weighted_sum(raw, 200 + 2 * k, 2) != 0 implies exists|i: int|
        0 <= i < idx.len() && #[trigger] idx[i] == k by {
        assert(all[k] == weighted_sum(raw, 200 + 2 * k, 2));
        assert(keep(all[k]));
    }
    assert(selects_nonzero_sensors(s.temp_sensors@, raw, idx));
}

/// An element kept by a filter is an element of the filtered sequence.
proof fn lemma_filtered_comes_from(s: Seq<[u8; 64]>, keep: spec_fn([u8; 64]) -> bool, i: int)
    requires
        0 <= i < s.filter(keep).len(),
    ensures
        exists|j: int| 0 <= j < s.len() && s[j] == s.filter(keep)[i],
    decreases s.len(),
{
    reveal(Seq::filter);
    if s.len() > 0 {
        let sub = s.drop_last().filter(keep);
        if i < sub.len() {
            lemma_filtered_comes_from(s.drop_last(), keep, i);
            let j = choose|j: int| 0 <= j < s.drop_last().len() && s.drop_last()[j] == sub[i];
            assert(s[j] == s.filter(keep)[i]);
        } else {
            assert(s[s.len() - 1] == s.filter(keep)[i]);
        }
    }
}

} // verus!
