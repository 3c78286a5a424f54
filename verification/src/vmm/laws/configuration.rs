//! How a configuration is changed.
use crate::vmm::config;
use crate::vmm::config::ConfigModel;
use crate::vmm::config::NetModel;
use crate::vmm::config::RestoredNetConfig;
use crate::vmm::config::RestoredNetModel;
use crate::vmm::config::VmConfig;
use crate::vmm::config::ZoneError;
use crate::vmm::config::ZoneModel;
use crate::vmm::effect::Effect;
use crate::vmm::effect::Pending;
use crate::vmm::effect::Single;
use crate::vmm::effect::Step;
use crate::vmm::error::VmError;
use crate::vmm::host::Host;
use crate::vmm::state::VmmModel;
use vstd::prelude::*;

verus! {

/// Every network device that has descriptors, and for which new ones came, has
/// exactly the new ones afterwards: those of the last update with its
/// identifier, unless an earlier one took its descriptors away.
pub proof fn law_every_device_gets_its_descriptors<D>(
    before: ConfigModel<D>,
    restored: Seq<RestoredNetModel>,
    i: int,
    j: int,
)
    requires
        before.net is Some,
        0 <= i < before.net->Some_0.len(),
        0 <= j < restored.len(),
        before.net->Some_0[i].fds is Some,
        before.net->Some_0[i].id == Some(restored[j].id),
        forall|k: int| j < k < restored.len() ==> (#[trigger] restored[k]).id != restored[j].id,
        forall|k: int|
            0 <= k < j && (#[trigger] restored[k]).id == restored[j].id ==> restored[k].fds is Some,
    ensures
        before.with_net_fds(restored).net is Some,
        before.with_net_fds(restored).net->Some_0.len() == before.net->Some_0.len(),
        before.with_net_fds(restored).net->Some_0[i] == (NetModel {
            fds: restored[j].fds,
            ..before.net->Some_0[i]
        }),
{
    config::lemma_new_descriptors(before.net->Some_0, restored, i, j);
}

/// A network device keeps its descriptors if no update has its identifier, and
/// one that had none gets none.
pub proof fn law_other_devices_keep_their_descriptors<D>(
    before: ConfigModel<D>,
    restored: Seq<RestoredNetModel>,
    i: int,
)
    requires
        before.net is Some,
        0 <= i < before.net->Some_0.len(),
        before.net->Some_0[i].fds is None || forall|k: int|
            0 <= k < restored.len() ==> before.net->Some_0[i].id != Some(
                (#[trigger] restored[k]).id,
            ),
    ensures
        before.with_net_fds(restored).net is Some,
        before.with_net_fds(restored).net->Some_0.len() == before.net->Some_0.len(),
        before.with_net_fds(restored).net->Some_0[i] == before.net->Some_0[i],
{
    config::lemma_old_descriptors(before.net->Some_0, restored, i);
}

/// A network device whose descriptors an update takes away has none afterwards,
/// whatever comes later.
pub proof fn law_lost_descriptors_stay_lost<D>(
    before: ConfigModel<D>,
    restored: Seq<RestoredNetModel>,
    i: int,
    j: int,
)
    requires
        before.net is Some,
        0 <= i < before.net->Some_0.len(),
        0 <= j < restored.len(),
        before.net->Some_0[i].id == Some(restored[j].id),
        restored[j].fds is None,
    ensures
        before.with_net_fds(restored).net is Some,
        before.with_net_fds(restored).net->Some_0.len() == before.net->Some_0.len(),
        before.with_net_fds(restored).net->Some_0[i].fds is None,
        before.with_net_fds(restored).net->Some_0[i].id == before.net->Some_0[i].id,
    decreases restored.len(),
{
    let nets = before.net->Some_0;
    let first = restored.drop_last();
    assert forall|k: int| 0 <= k < first.len() implies #[trigger] first[k] == restored[k] by {}
    assert(restored[restored.len() - 1] == restored.last());
    crate::vmm::laws::law_net_fds_change_only_descriptors(nets, first, i);
    if j < restored.len() - 1 {
        law_lost_descriptors_stay_lost(before, first, i, j);
    }
}

/// What is said of a network device is said of its own identifier and of the
/// descriptors that it has, all of them and in their order; so with an update.
pub proof fn law_models_show_the_descriptors<D>(
    config: VmConfig<D>,
    restored: Seq<RestoredNetConfig>,
    i: int,
    j: int,
)
    ensures
        config@.net is Some <==> config.net is Some,
        config.net matches Some(nets) ==> config@.net->Some_0.len() == nets@.len(),
        config.net matches Some(nets) ==> 0 <= i < nets@.len() ==> ({
            let model = config@.net->Some_0[i];
            &&& model.device == nets@[i].device
            &&& model.id is Some <==> nets@[i].id is Some
            &&& nets@[i].id matches Some(id) ==> model.id == Some(id@)
            &&& model.fds is Some <==> nets@[i].fds is Some
            &&& nets@[i].fds matches Some(fds) ==> model.fds == Some(fds@)
        }),
        config::restored_models(restored).len() == restored.len(),
        0 <= j < restored.len() ==> ({
            let model = config::restored_models(restored)[j];
            &&& model.id == restored[j].id@
            &&& model.fds is Some <==> restored[j].fds is Some
            &&& restored[j].fds matches Some(fds) ==> model.fds == Some(fds@)
        }),
{
}

/// What is said of a memory zone is said of its own identifier, size and host
/// node, and what is said of the memory of the configured one.
pub proof fn law_models_show_the_memory<D>(config: VmConfig<D>, i: int)
    ensures
        config@.memory_size == config.memory.size,
        config@.balloon == config.balloon,
        config@.zones is Some <==> config.memory.zones is Some,
        config.memory.zones matches Some(zones) ==> config@.zones->Some_0.len() == zones@.len(),
        config.memory.zones matches Some(zones) ==> 0 <= i < zones@.len() ==> ({
            let model = config@.zones->Some_0[i];
            &&& model.id == zones@[i].id@
            &&& model.size == zones@[i].size
            &&& model.host_numa_node == zones@[i].host_numa_node
        }),
{
}

/// New descriptors change the network devices only.
pub proof fn law_new_descriptors_change_nothing_else<D>(
    before: ConfigModel<D>,
    restored: Seq<RestoredNetModel>,
)
    ensures
        before.with_net_fds(restored) == (ConfigModel {
            net: before.with_net_fds(restored).net,
            ..before
        }),
        before.net is None ==> before.with_net_fds(restored) == before,
{
}

/// Whether a zone is the first with an identifier.
pub open spec fn is_first(zones: Seq<ZoneModel>, z: int, id: Seq<char>) -> bool {
    &&& 0 <= z < zones.len()
    &&& zones[z].id == id
    &&& forall|k: int| 0 <= k < z ==> (#[trigger] zones[k]).id != id
}

proof fn lemma_zone_found(zones: Seq<ZoneModel>, id: Seq<char>)
    ensures
        config::zone_index(zones, id) matches Some(z) ==> is_first(zones, z, id),
        config::zone_index(zones, id) is None ==> forall|k: int|
            0 <= k < zones.len() ==> (#[trigger] zones[k]).id != id,
    decreases zones.len(),
{
    if zones.len() > 0 {
        let before = zones.drop_last();
        lemma_zone_found(before, id);
        assert forall|k: int| 0 <= k < before.len() implies #[trigger] zones[k] == before[k] by {}
        assert(zones[zones.len() - 1] == zones.last());
    }
}

/// The zone with an identifier is the first that has it, and there is none only
/// if no zone has it.
pub proof fn law_first_zone_counts(zones: Seq<ZoneModel>, id: Seq<char>, z: int)
    ensures
        is_first(zones, z, id) <==> config::zone_index(zones, id) == Some(z),
        config::zone_index(zones, id) is None <==> forall|k: int|
            0 <= k < zones.len() ==> (#[trigger] zones[k]).id != id,
{
    lemma_zone_found(zones, id);
    if is_first(zones, z, id) {
        config::lemma_zone_index(zones, id, z);
    }
}

/// Whether an update names a zone by its identifier and its size.
pub open spec fn is_movable(zones: Seq<ZoneModel>, update: ZoneModel) -> bool {
    exists|z: int| #[trigger] is_first(zones, z, update.id) && zones[z].size == update.size
}

/// The zones after one update.
spec fn moved_once(zones: Seq<ZoneModel>, z: int, update: ZoneModel) -> Seq<ZoneModel> {
    zones.update(z, ZoneModel { host_numa_node: update.host_numa_node, ..zones[z] })
}

proof fn lemma_moved_once(zones: Seq<ZoneModel>, z: int, update: ZoneModel, id: Seq<char>, y: int)
    requires
        0 <= z < zones.len(),
    ensures
        is_first(moved_once(zones, z, update), y, id) <==> is_first(zones, y, id),
        0 <= y < zones.len() ==> moved_once(zones, z, update)[y].size == zones[y].size,
{
    let moved = moved_once(zones, z, update);
    assert forall|k: int| 0 <= k < zones.len() implies (#[trigger] moved[k]).id == zones[k].id by {}
    assert forall|k: int| 0 <= k < zones.len() implies (#[trigger] zones[k]).id == moved[k].id by {}
}

/// Zones are moved if and only if every update names a zone, by its identifier
/// and with its size. Otherwise the first update that does not decides why: the
/// zone is unknown, or its size would change.
pub proof fn law_only_known_zones_are_moved(
    zones: Seq<ZoneModel>,
    updates: Seq<ZoneModel>,
    j: int,
)
    ensures
        config::adopt(zones, updates).1 is Ok <==> forall|k: int|
            0 <= k < updates.len() ==> is_movable(zones, #[trigger] updates[k]),
        0 <= j < updates.len() && !is_movable(zones, updates[j]) && (forall|k: int|
            0 <= k < j ==> is_movable(zones, #[trigger] updates[k])) ==> config::adopt(
            zones,
            updates,
        ).1 == Err::<(), ZoneError>(
            if exists|z: int| is_first(zones, z, updates[j].id) {
                ZoneError::SizeChanged
            } else {
                ZoneError::UnknownZone
            },
        ),
    decreases updates.len(),
{
    if updates.len() > 0 {
        let update = updates.first();
        let rest = updates.drop_first();
        assert(updates[0] == update);
        assert forall|k: int| 0 <= k < rest.len() implies #[trigger] rest[k] == updates[k + 1] by {}
        lemma_zone_found(zones, update.id);
        if let Some(z) = config::zone_index(zones, update.id) {
            assert forall|y: int| is_first(zones, y, update.id) implies y == z by {
                law_first_zone_counts(zones, update.id, y);
            }
            if zones[z].size == update.size {
                assert(is_movable(zones, update));
                let moved = moved_once(zones, z, update);
                law_only_known_zones_are_moved(moved, rest, j - 1);
                assert forall|u: ZoneModel| is_movable(moved, u) <==> is_movable(zones, u) by {
                    if is_movable(moved, u) {
                        let y = choose|y: int| #[trigger]
                            is_first(moved, y, u.id) && moved[y].size == u.size;
                        lemma_moved_once(zones, z, update, u.id, y);
                        assert(is_first(zones, y, u.id));
                    }
                    if is_movable(zones, u) {
                        let y = choose|y: int| #[trigger]
                            is_first(zones, y, u.id) && zones[y].size == u.size;
                        lemma_moved_once(zones, z, update, u.id, y);
                        assert(is_first(moved, y, u.id));
                    }
                }
                if 0 < j < updates.len() {
                    let id = updates[j].id;
                    assert((exists|y: int| is_first(moved, y, id)) <==> (exists|y: int|
                        is_first(zones, y, id))) by {
                        if exists|y: int| is_first(moved, y, id) {
                            let y = choose|y: int| is_first(moved, y, id);
                            lemma_moved_once(zones, z, update, id, y);
                        }
                        if exists|y: int| is_first(zones, y, id) {
                            let y = choose|y: int| is_first(zones, y, id);
                            lemma_moved_once(zones, z, update, id, y);
                        }
                    }
                    assert(rest[j - 1] == updates[j]);
                }
                assert((forall|k: int|
                    0 <= k < updates.len() ==> is_movable(zones, #[trigger] updates[k])) <==> (
                forall|k: int| 0 <= k < rest.len() ==> is_movable(moved, #[trigger] rest[k]))) by {
                    if forall|k: int| 0 <= k < rest.len() ==> is_movable(moved, #[trigger] rest[k]) {
                        assert forall|k: int| 0 <= k < updates.len() implies is_movable(
                            zones,
                            #[trigger] updates[k],
                        ) by {
                            if k > 0 {
                                assert(rest[k - 1] == updates[k]);
                            }
                        }
                    }
                }
                if 0 < j && (forall|k: int| 0 <= k < j ==> is_movable(zones, #[trigger] updates[k])) {
                    assert forall|k: int| 0 <= k < j - 1 && k < rest.len() implies is_movable(
                        moved,
                        #[trigger] rest[k],
                    ) by {
                        assert(rest[k] == updates[k + 1]);
                    }
                }
            } else {
                assert(!is_movable(zones, update));
                assert(is_first(zones, z, update.id));
            }
        } else {
            assert(!is_movable(zones, update)) by {
                if is_movable(zones, update) {
                    let y = choose|y: int| #[trigger]
                        is_first(zones, y, update.id) && zones[y].size == update.size;
                    law_first_zone_counts(zones, update.id, y);
                }
            }
            assert forall|y: int| !is_first(zones, y, update.id) by {
                law_first_zone_counts(zones, update.id, y);
            }
        }
    }
}

/// A zone that an update names is moved to the update's host node; if several
/// name it, the last one counts. A zone that none names stays where it is.
pub proof fn law_zones_move_where_they_are_told(
    zones: Seq<ZoneModel>,
    updates: Seq<ZoneModel>,
    z: int,
    j: int,
)
    requires
        config::adopt(zones, updates).1 is Ok,
        0 <= z < zones.len(),
    ensures
        0 <= j < updates.len() && is_first(zones, z, updates[j].id) && (forall|k: int|
            j < k < updates.len() ==> (#[trigger] updates[k]).id != updates[j].id)
            ==> config::adopt(zones, updates).0[z] == (ZoneModel {
            host_numa_node: updates[j].host_numa_node,
            ..zones[z]
        }),
        (forall|k: int|
            0 <= k < updates.len() ==> !is_first(zones, z, (#[trigger] updates[k]).id))
            ==> config::adopt(zones, updates).0[z] == zones[z],
    decreases updates.len(),
{
    if updates.len() > 0 {
        let update = updates.first();
        let rest = updates.drop_first();
        assert(updates[0] == update);
        assert forall|k: int| 0 <= k < rest.len() implies #[trigger] rest[k] == updates[k + 1] by {}
        lemma_zone_found(zones, update.id);
        let y = config::zone_index(zones, update.id)->Some_0;
        let moved = moved_once(zones, y, update);
        law_zones_move_where_they_are_told(moved, rest, z, j - 1);
        assert forall|id: Seq<char>| #[trigger]
            is_first(moved, z, id) <==> is_first(zones, z, id) by {
            lemma_moved_once(zones, y, update, id, z);
        }
        if is_first(zones, z, update.id) {
            law_first_zone_counts(zones, update.id, z);
        }
        if j == 0 && is_first(zones, z, update.id) && (forall|k: int|
            j < k < updates.len() ==> (#[trigger] updates[k]).id != updates[j].id) {
            assert forall|k: int| 0 <= k < rest.len() implies !is_first(
                moved,
                z,
                (#[trigger] rest[k]).id,
            ) by {
                assert(rest[k] == updates[k + 1]);
                assert(is_first(moved, z, rest[k].id) <==> is_first(zones, z, rest[k].id));
            }
        }
        if 0 < j < updates.len() {
            assert(rest[j - 1] == updates[j]);
            assert(is_first(moved, z, updates[j].id) <==> is_first(zones, z, updates[j].id));
        }
        if forall|k: int|
            0 <= k < updates.len() ==> !is_first(zones, z, (#[trigger] updates[k]).id) {
            assert(!is_first(zones, z, updates[0].id));
            assert forall|k: int| 0 <= k < rest.len() implies !is_first(
                moved,
                z,
                (#[trigger] rest[k]).id,
            ) by {
                assert(rest[k] == updates[k + 1]);
                assert(is_first(moved, z, rest[k].id) <==> is_first(zones, z, rest[k].id));
            }
        }
    }
}

/// While no VM runs, a resize gives the configuration exactly the sizes that
/// were asked for, and leaves what was not asked for. A balloon is resized only
/// if there is one. Nothing else changes.
pub proof fn law_cold_resize<H: Host>(m: VmmModel<H>, ram: Option<u64>, balloon: Option<u64>)
    requires
        m.vm is Absent,
        m.vm_config is Some,
    ensures
        ({
            let (next, step) = m.resize(ram, balloon);
            let before = m.vm_config->Some_0;
            let after = next.vm_config->Some_0;
            &&& step == Step::<H>::Reply(Ok(None))
            &&& next == (VmmModel { vm_config: next.vm_config, ..m })
            &&& next.vm_config is Some
            &&& after == (ConfigModel {
                memory_size: after.memory_size,
                balloon: after.balloon,
                ..before
            })
            &&& ram matches Some(size) ==> after.memory_size == size
            &&& ram is None ==> after.memory_size == before.memory_size
            &&& balloon is None || before.balloon is None ==> after.balloon == before.balloon
            &&& balloon is Some && before.balloon is Some ==> after.balloon == balloon
        }),
{
}

/// While no VM runs, resizing a zone changes the size of the first zone with
/// the identifier to the one that was asked for, and nothing else. It is refused
/// if there is no such zone.
pub proof fn law_cold_resize_of_a_zone<H: Host>(m: VmmModel<H>, id: String, ram: u64, z: int)
    requires
        m.vm is Absent,
        m.vm_config is Some,
        m.vm_config->Some_0.zones is Some,
    ensures
        ({
            let zones = m.vm_config->Some_0.zones->Some_0;
            let (next, step) = m.resize_zone(id, ram);
            let after = next.vm_config->Some_0.zones->Some_0;
            &&& is_first(zones, z, id@) ==> {
                &&& step == Step::<H>::Reply(Ok(None))
                &&& next.vm_config is Some && next.vm_config->Some_0.zones is Some
                &&& after.len() == zones.len()
                &&& after[z] == (ZoneModel { size: ram, ..zones[z] })
                &&& forall|k: int| 0 <= k < zones.len() && k != z ==> #[trigger] after[k] == zones[k]
                &&& next == (VmmModel {
                    vm_config: Some(
                        ConfigModel { zones: Some(after), ..m.vm_config->Some_0 },
                    ),
                    ..m
                })
            }
            &&& (forall|k: int| 0 <= k < zones.len() ==> (#[trigger] zones[k]).id != id@) ==> next
                == m && step == Step::<H>::Reply(Err(VmError::ResizeZone))
        }),
{
    law_first_zone_counts(m.vm_config->Some_0.zones->Some_0, id@, z);
}

/// A running VM is resized itself, with what was asked for and nothing else.
pub proof fn law_hot_resize<H: Host>(
    m: VmmModel<H>,
    ram: Option<u64>,
    balloon: Option<u64>,
    id: String,
    size: u64,
)
    requires
        m.vm is Vmm,
        m.vm_config is Some,
    ensures
        m.resize(ram, balloon) == (
            m,
            Step::<H>::Do(Effect::ResizeVm(ram, balloon), Pending::Single(Single::Vm)),
        ),
        m.resize_zone(id, size) == (
            m,
            Step::<H>::Do(Effect::ResizeZone(id, size), Pending::Single(Single::Vm)),
        ),
        m.resize_disk(id, size) == Step::<H>::Do(
            Effect::ResizeDisk(id, size),
            Pending::Single(Single::Vm),
        ),
{
}

} // verus!
