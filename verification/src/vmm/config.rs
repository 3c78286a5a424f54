//! The configuration of a VM, as far as the monitor itself reads or changes it.
use vstd::prelude::*;

verus! {

/// A memory zone.
#[derive(Clone, Debug, PartialEq, Eq)]
pub struct MemoryZoneConfig {
    pub id: String,
    pub size: u64,
    pub host_numa_node: Option<u32>,
}

/// The mathematical value of a [`MemoryZoneConfig`].
pub ghost struct ZoneModel {
    pub id: Seq<char>,
    pub size: u64,
    pub host_numa_node: Option<u32>,
}

impl View for MemoryZoneConfig {
    type V = ZoneModel;

    open spec fn view(&self) -> ZoneModel {
        ZoneModel { id: self.id@, size: self.size, host_numa_node: self.host_numa_node }
    }
}

/// The memory of a VM.
#[derive(Clone, Debug)]
pub struct MemoryConfig {
    pub size: u64,
    pub zones: Option<Vec<MemoryZoneConfig>>,
}

/// The processors of a VM.
#[derive(Clone, Copy, Debug)]
pub struct CpusConfig {
    pub boot_vcpus: u32,
    pub nested: bool,
    /// The threads of each core, if the topology is given.
    pub threads_per_core: Option<u16>,
    pub amx: bool,
}

/// A network device. Its file descriptors may have been opened elsewhere.
#[derive(Clone, Debug, PartialEq, Eq)]
pub struct NetConfig<D> {
    pub id: Option<String>,
    pub fds: Option<Vec<i32>>,
    pub device: D,
}

/// The mathematical value of a [`NetConfig`].
pub ghost struct NetModel<D> {
    pub id: Option<Seq<char>>,
    pub fds: Option<Seq<i32>>,
    pub device: D,
}

/// The text of an optional string.
pub open spec fn text(s: Option<String>) -> Option<Seq<char>> {
    match s {
        Some(s) => Some(s@),
        None => None,
    }
}

/// The numbers of an optional list.
pub open spec fn numbers(v: Option<Vec<i32>>) -> Option<Seq<i32>> {
    match v {
        Some(v) => Some(v@),
        None => None,
    }
}

impl<D> View for NetConfig<D> {
    type V = NetModel<D>;

    open spec fn view(&self) -> NetModel<D> {
        NetModel { id: text(self.id), fds: numbers(self.fds), device: self.device }
    }
}

/// New file descriptors for the network device with an identifier.
#[derive(Clone, Debug, PartialEq, Eq)]
pub struct RestoredNetConfig {
    pub id: String,
    pub fds: Option<Vec<i32>>,
}

/// The mathematical value of a [`RestoredNetConfig`].
pub ghost struct RestoredNetModel {
    pub id: Seq<char>,
    pub fds: Option<Seq<i32>>,
}

impl View for RestoredNetConfig {
    type V = RestoredNetModel;

    open spec fn view(&self) -> RestoredNetModel {
        RestoredNetModel { id: self.id@, fds: numbers(self.fds) }
    }
}

/// The lists of devices that a VM can be extended by.
#[derive(Clone, Copy, Debug, PartialEq, Eq, Structural)]
pub enum DeviceKind {
    Device,
    UserDevice,
    Disk,
    Fs,
    Pmem,
    Vdpa,
}

/// A device to add.
#[derive(Clone, Debug)]
pub enum Addition<D> {
    Listed(DeviceKind, D),
    Net(NetConfig<D>),
    Vsock(D),
}

/// The configuration of a VM.
#[derive(Clone, Debug)]
pub struct VmConfig<D> {
    pub cpus: CpusConfig,
    pub memory: MemoryConfig,
    /// The size of the balloon, if there is one.
    pub balloon: Option<u64>,
    /// Where the serial console is connected to.
    pub serial_url: Option<String>,
    pub disks: Option<Vec<D>>,
    pub net: Option<Vec<NetConfig<D>>>,
    pub fs: Option<Vec<D>>,
    pub pmem: Option<Vec<D>>,
    pub devices: Option<Vec<D>>,
    pub user_devices: Option<Vec<D>>,
    pub vdpa: Option<Vec<D>>,
    pub vsock: Option<D>,
    pub tdx: bool,
    pub sev_snp: bool,
    pub landlock_enable: bool,
}

/// The mathematical value of a [`VmConfig`].
#[verifier::ext_equal]
pub ghost struct ConfigModel<D> {
    pub cpus: CpusConfig,
    pub memory_size: u64,
    pub zones: Option<Seq<ZoneModel>>,
    pub balloon: Option<u64>,
    pub serial_url: Option<Seq<char>>,
    pub disks: Option<Seq<D>>,
    pub net: Option<Seq<NetModel<D>>>,
    pub fs: Option<Seq<D>>,
    pub pmem: Option<Seq<D>>,
    pub devices: Option<Seq<D>>,
    pub user_devices: Option<Seq<D>>,
    pub vdpa: Option<Seq<D>>,
    pub vsock: Option<D>,
    pub tdx: bool,
    pub sev_snp: bool,
    pub landlock_enable: bool,
}

/// The elements of an optional list.
pub open spec fn list<D>(v: Option<Vec<D>>) -> Option<Seq<D>> {
    match v {
        Some(v) => Some(v@),
        None => None,
    }
}

/// The values of zones.
pub open spec fn zone_models(v: Seq<MemoryZoneConfig>) -> Seq<ZoneModel> {
    Seq::new(v.len(), |i: int| v[i]@)
}

/// The values of network devices.
pub open spec fn net_models<D>(v: Seq<NetConfig<D>>) -> Seq<NetModel<D>> {
    Seq::new(v.len(), |i: int| v[i]@)
}

/// The values of restored network devices.
pub open spec fn restored_models(v: Seq<RestoredNetConfig>) -> Seq<RestoredNetModel> {
    Seq::new(v.len(), |i: int| v[i]@)
}

impl<D> View for VmConfig<D> {
    type V = ConfigModel<D>;

    open spec fn view(&self) -> ConfigModel<D> {
        ConfigModel {
            cpus: self.cpus,
            memory_size: self.memory.size,
            zones: match self.memory.zones {
                Some(v) => Some(zone_models(v@)),
                None => None,
            },
            balloon: self.balloon,
            serial_url: text(self.serial_url),
            disks: list(self.disks),
            net: match self.net {
                Some(v) => Some(net_models(v@)),
                None => None,
            },
            fs: list(self.fs),
            pmem: list(self.pmem),
            devices: list(self.devices),
            user_devices: list(self.user_devices),
            vdpa: list(self.vdpa),
            vsock: self.vsock,
            tdx: self.tdx,
            sev_snp: self.sev_snp,
            landlock_enable: self.landlock_enable,
        }
    }
}

/// An optional list with one more element, which makes a list of none.
pub open spec fn added<D>(items: Option<Seq<D>>, item: D) -> Option<Seq<D>> {
    match items {
        Some(s) => Some(s.push(item)),
        None => Some(seq![item]),
    }
}

/// The value that an addition adds.
pub ghost enum AdditionModel<D> {
    Listed(DeviceKind, D),
    Net(NetModel<D>),
    Vsock(D),
}

impl<D> View for Addition<D> {
    type V = AdditionModel<D>;

    open spec fn view(&self) -> AdditionModel<D> {
        match *self {
            Addition::Listed(kind, d) => AdditionModel::Listed(kind, d),
            Addition::Net(n) => AdditionModel::Net(n@),
            Addition::Vsock(d) => AdditionModel::Vsock(d),
        }
    }
}

impl<D> ConfigModel<D> {
    /// The configuration with a device more.
    pub open spec fn add(self, addition: AdditionModel<D>) -> ConfigModel<D> {
        match addition {
            AdditionModel::Listed(DeviceKind::Device, d) => ConfigModel {
                devices: added(self.devices, d),
                ..self
            },
            AdditionModel::Listed(DeviceKind::UserDevice, d) => ConfigModel {
                user_devices: added(self.user_devices, d),
                ..self
            },
            AdditionModel::Listed(DeviceKind::Disk, d) => ConfigModel {
                disks: added(self.disks, d),
                ..self
            },
            AdditionModel::Listed(DeviceKind::Fs, d) => ConfigModel {
                fs: added(self.fs, d),
                ..self
            },
            AdditionModel::Listed(DeviceKind::Pmem, d) => ConfigModel {
                pmem: added(self.pmem, d),
                ..self
            },
            AdditionModel::Listed(DeviceKind::Vdpa, d) => ConfigModel {
                vdpa: added(self.vdpa, d),
                ..self
            },
            AdditionModel::Net(n) => ConfigModel { net: added(self.net, n), ..self },
            AdditionModel::Vsock(d) => ConfigModel { vsock: Some(d), ..self },
        }
    }

    /// The configuration with other sizes. A balloon is only resized.
    pub open spec fn resize(self, ram: Option<u64>, balloon: Option<u64>) -> ConfigModel<D> {
        ConfigModel {
            memory_size: match ram {
                Some(size) => size,
                None => self.memory_size,
            },
            balloon: match (balloon, self.balloon) {
                (Some(size), Some(_)) => Some(size),
                _ => self.balloon,
            },
            ..self
        }
    }

    /// The configuration with new descriptors of network devices.
    pub open spec fn with_net_fds(self, restored: Seq<RestoredNetModel>) -> ConfigModel<D> {
        ConfigModel {
            net: match self.net {
                Some(nets) => Some(with_fds(nets, restored)),
                None => None,
            },
            ..self
        }
    }
}

/// Where the zone with an identifier stands: the first one that has it.
pub open spec fn zone_index(zones: Seq<ZoneModel>, id: Seq<char>) -> Option<int>
    decreases zones.len(),
{
    if zones.len() == 0 {
        None
    } else {
        match zone_index(zones.drop_last(), id) {
            Some(i) => Some(i),
            None => if zones.last().id == id {
                Some(zones.len() - 1)
            } else {
                None
            },
        }
    }
}

/// What [`zone_index`] says in other words.
pub proof fn lemma_zone_index(zones: Seq<ZoneModel>, id: Seq<char>, i: int)
    requires
        0 <= i < zones.len(),
        zones[i].id == id,
        forall|k: int| 0 <= k < i ==> zones[k].id != id,
    ensures
        zone_index(zones, id) == Some(i),
    decreases zones.len(),
{
    if i == zones.len() - 1 {
        lemma_zone_absent(zones.drop_last(), id);
    } else {
        lemma_zone_index(zones.drop_last(), id, i);
    }
}

/// No zone is found where none has the identifier.
pub proof fn lemma_zone_absent(zones: Seq<ZoneModel>, id: Seq<char>)
    requires
        forall|k: int| 0 <= k < zones.len() ==> zones[k].id != id,
    ensures
        zone_index(zones, id) is None,
    decreases zones.len(),
{
    if zones.len() > 0 {
        lemma_zone_absent(zones.drop_last(), id);
    }
}

/// Why zones could not be moved to other host nodes.
#[derive(Clone, Copy, Debug, PartialEq, Eq, Structural)]
pub enum ZoneError {
    /// The size of a zone must not change.
    SizeChanged,
    /// There is no zone with that identifier.
    UnknownZone,
    /// The VM has no zones.
    NoZones,
}

/// The zones after the first updates up to one that is refused. A zone with
/// the same identifier and size moves to the host node of the update.
pub open spec fn adopt(zones: Seq<ZoneModel>, updates: Seq<ZoneModel>) -> (
    Seq<ZoneModel>,
    Result<(), ZoneError>,
)
    decreases updates.len(),
{
    if updates.len() == 0 {
        (zones, Ok(()))
    } else {
        let update = updates.first();
        match zone_index(zones, update.id) {
            None => (zones, Err(ZoneError::UnknownZone)),
            Some(i) => if zones[i].size != update.size {
                (zones, Err(ZoneError::SizeChanged))
            } else {
                adopt(
                    zones.update(
                        i,
                        ZoneModel { host_numa_node: update.host_numa_node, ..zones[i] },
                    ),
                    updates.drop_first(),
                )
            },
        }
    }
}

/// A network device after new descriptors came for the one with an identifier.
/// Only a device that had descriptors gets new ones.
pub open spec fn with_fds_of<D>(net: NetModel<D>, restored: RestoredNetModel) -> NetModel<D> {
    if net.id == Some(restored.id) && net.fds is Some {
        NetModel { fds: restored.fds, ..net }
    } else {
        net
    }
}

/// Network devices after new descriptors came, one update after the other.
pub open spec fn with_fds<D>(nets: Seq<NetModel<D>>, restored: Seq<RestoredNetModel>) -> Seq<
    NetModel<D>,
>
    decreases restored.len(),
{
    if restored.len() == 0 {
        nets
    } else {
        let before = with_fds(nets, restored.drop_last());
        Seq::new(before.len(), |i: int| with_fds_of(before[i], restored.last()))
    }
}

/// A device keeps its descriptors if no update has its identifier, or if it has
/// none.
pub proof fn lemma_old_descriptors<D>(
    nets: Seq<NetModel<D>>,
    restored: Seq<RestoredNetModel>,
    i: int,
)
    requires
        0 <= i < nets.len(),
        nets[i].fds is None || forall|k: int|
            0 <= k < restored.len() ==> Some((#[trigger] restored[k]).id) != nets[i].id,
    ensures
        with_fds(nets, restored).len() == nets.len(),
        with_fds(nets, restored)[i] == nets[i],
    decreases restored.len(),
{
    if restored.len() > 0 {
        let before = restored.drop_last();
        assert forall|k: int| 0 <= k < before.len() implies #[trigger] before[k] == restored[k] by {}
        lemma_old_descriptors(nets, before, i);
        assert(restored[restored.len() - 1] == restored.last());
    }
}

/// A device whose descriptors no update takes away still has some.
proof fn lemma_keeps_descriptors<D>(
    nets: Seq<NetModel<D>>,
    restored: Seq<RestoredNetModel>,
    i: int,
)
    requires
        0 <= i < nets.len(),
        nets[i].fds is Some,
        forall|k: int|
            0 <= k < restored.len() && Some((#[trigger] restored[k]).id) == nets[i].id
                ==> restored[k].fds is Some,
    ensures
        with_fds(nets, restored).len() == nets.len(),
        with_fds(nets, restored)[i].id == nets[i].id,
        with_fds(nets, restored)[i].device == nets[i].device,
        with_fds(nets, restored)[i].fds is Some,
    decreases restored.len(),
{
    if restored.len() > 0 {
        let before = restored.drop_last();
        assert forall|k: int| 0 <= k < before.len() implies #[trigger] before[k] == restored[k] by {}
        lemma_keeps_descriptors(nets, before, i);
        assert(restored[restored.len() - 1] == restored.last());
    }
}

/// The last update with the identifier of a device says what descriptors it
/// has, unless an earlier one took them away.
pub proof fn lemma_new_descriptors<D>(
    nets: Seq<NetModel<D>>,
    restored: Seq<RestoredNetModel>,
    i: int,
    j: int,
)
    requires
        0 <= i < nets.len(),
        0 <= j < restored.len(),
        nets[i].fds is Some,
        nets[i].id == Some(restored[j].id),
        forall|k: int| j < k < restored.len() ==> (#[trigger] restored[k]).id != restored[j].id,
        forall|k: int|
            0 <= k < j && (#[trigger] restored[k]).id == restored[j].id ==> restored[k].fds is Some,
    ensures
        with_fds(nets, restored).len() == nets.len(),
        with_fds(nets, restored)[i] == (NetModel { fds: restored[j].fds, ..nets[i] }),
    decreases restored.len(),
{
    let first = restored.drop_last();
    assert forall|k: int| 0 <= k < first.len() implies #[trigger] first[k] == restored[k] by {}
    assert(restored[restored.len() - 1] == restored.last());
    if j == restored.len() - 1 {
        lemma_keeps_descriptors(nets, first, i);
    } else {
        lemma_new_descriptors(nets, first, i, j);
    }
}

/// Appends to a list, which is created if there is none.
pub fn add_to_config<D>(items: &mut Option<Vec<D>>, item: D)
    ensures
        list(*final(items)) == added(list(*old(items)), item),
{
    match items {
        Some(v) => {
            v.push(item);
        },
        None => {
            let mut v: Vec<D> = Vec::new();
            v.push(item);
            assert(v@ =~= seq![item]);
            *items = Some(v);
        },
    }
}

fn copy_numbers(v: &Option<Vec<i32>>) -> (r: Option<Vec<i32>>)
    ensures
        numbers(r) == numbers(*v),
{
    match v {
        Some(v) => {
            let mut out: Vec<i32> = Vec::new();
            let mut i: usize = 0;
            while i < v.len()
                invariant
                    i <= v@.len(),
                    out@ =~= v@.take(i as int),
                decreases v@.len() - i,
            {
                out.push(v[i]);
                i = i + 1;
            }
            assert(v@.take(i as int) =~= v@);
            Some(out)
        },
        None => None,
    }
}

fn has_id(id: &Option<String>, wanted: &String) -> (r: bool)
    ensures
        r == (text(*id) == Some(wanted@)),
{
    match id {
        Some(id) => *id == *wanted,
        None => false,
    }
}

/// Gives network devices new descriptors.
pub fn update_net_fds<D>(nets: &mut Vec<NetConfig<D>>, restored: &[RestoredNetConfig])
    ensures
        net_models(final(nets)@) == with_fds(net_models(old(nets)@), restored_models(restored@)),
        final(nets)@.len() == old(nets)@.len(),
        forall|i: int, j: int|
            #![trigger final(nets)@[i], restored@[j]]
            0 <= i < old(nets)@.len() && 0 <= j < restored@.len() && old(nets)@[i].fds is Some
                && (old(nets)@[i].id matches Some(id) && id@ == restored@[j].id@) && (forall|k: int|
                j < k < restored@.len() ==> (#[trigger] restored@[k]).id@ != restored@[j].id@) && (
            forall|k: int|
                0 <= k < j && (#[trigger] restored@[k]).id@ == restored@[j].id@
                    ==> restored@[k].fds is Some) ==> match restored@[j].fds {
                Some(fds) => final(nets)@[i].fds matches Some(new) && new@ == fds@,
                None => final(nets)@[i].fds is None,
            },
        forall|i: int|
            #![trigger final(nets)@[i]]
            0 <= i < old(nets)@.len() && (old(nets)@[i].fds is None || forall|k: int|
                0 <= k < restored@.len() ==> !(old(nets)@[i].id matches Some(id) && id@ == (
                #[trigger] restored@[k]).id@)) ==> match old(nets)@[i].fds {
                Some(fds) => final(nets)@[i].fds matches Some(new) && new@ == fds@,
                None => final(nets)@[i].fds is None,
            },
{
    let ghost original = net_models(nets@);
    let mut i: usize = 0;
    while i < restored.len()
        invariant
            i <= restored@.len(),
            nets@.len() == original.len(),
            net_models(nets@) == with_fds(original, restored_models(restored@).take(i as int)),
        decreases restored@.len() - i,
    {
        let ghost before = net_models(nets@);
        let ghost update = restored@[i as int]@;
        let mut k: usize = 0;
        while k < nets.len()
            invariant
                i < restored@.len(),
                update == restored@[i as int]@,
                k <= nets@.len(),
                nets@.len() == before.len(),
                forall|j: int|
                    0 <= j < k ==> (#[trigger] nets@[j])@ == with_fds_of(before[j], update),
                forall|j: int| k <= j < nets@.len() ==> (#[trigger] nets@[j])@ == before[j],
            decreases nets@.len() - k,
        {
            assert(nets@[k as int]@ == before[k as int]);
            if has_id(&nets[k].id, &restored[i].id) && nets[k].fds.is_some() {
                nets[k].fds = copy_numbers(&restored[i].fds);
            }
            k = k + 1;
        }
        proof {
            let all = restored_models(restored@);
            assert(all.take(i + 1).drop_last() =~= all.take(i as int));
            assert(all.take(i + 1).last() == update);
            assert(net_models(nets@) =~= with_fds(original, all.take(i + 1)));
        }
        i = i + 1;
    }
    proof {
        let all = restored_models(restored@);
        assert(all.take(i as int) =~= all);
        let before = old(nets)@;
        assert(original =~= net_models(before));
        assert forall|k: int| 0 <= k < nets@.len() implies #[trigger] nets@[k]@ == with_fds(
            original,
            all,
        )[k] by {
            assert(net_models(nets@)[k] == nets@[k]@);
        }
        assert forall|i: int, j: int|
            #![trigger nets@[i], restored@[j]]
            0 <= i < before.len() && 0 <= j < restored@.len() && before[i].fds is Some && (
            before[i].id matches Some(id) && id@ == restored@[j].id@) && (forall|k: int|
                j < k < restored@.len() ==> (#[trigger] restored@[k]).id@ != restored@[j].id@) && (
            forall|k: int|
                0 <= k < j && (#[trigger] restored@[k]).id@ == restored@[j].id@
                    ==> restored@[k].fds is Some) implies match restored@[j].fds {
            Some(fds) => nets@[i].fds matches Some(new) && new@ == fds@,
            None => nets@[i].fds is None,
        } by {
            assert(original[i] == before[i]@);
            assert forall|k: int| 0 <= k < all.len() implies #[trigger] all[k] == restored@[k]@ by {}
            lemma_new_descriptors(original, all, i, j);
            assert(nets@[i]@ == with_fds(original, all)[i]);
        }
        assert forall|i: int|
            #![trigger nets@[i]]
            0 <= i < before.len() && (before[i].fds is None || forall|k: int|
                0 <= k < restored@.len() ==> !(before[i].id matches Some(id) && id@ == (
                #[trigger] restored@[k]).id@)) implies match before[i].fds {
            Some(fds) => nets@[i].fds matches Some(new) && new@ == fds@,
            None => nets@[i].fds is None,
        } by {
            assert(original[i] == before[i]@);
            assert forall|k: int| 0 <= k < all.len() implies #[trigger] all[k] == restored@[k]@ by {}
            lemma_old_descriptors(original, all, i);
            assert(nets@[i]@ == with_fds(original, all)[i]);
        }
    }
}

/// Where the zone with an identifier stands.
fn find_zone(zones: &Vec<MemoryZoneConfig>, id: &String) -> (r: Option<usize>)
    ensures
        match zone_index(zone_models(zones@), id@) {
            Some(i) => r is Some && r->Some_0 == i && r->Some_0 < zones@.len(),
            None => r is None,
        },
{
    let mut i: usize = 0;
    while i < zones.len()
        invariant
            i <= zones@.len(),
            forall|k: int| 0 <= k < i ==> zone_models(zones@)[k].id != id@,
        decreases zones@.len() - i,
    {
        if zones[i].id == *id {
            proof {
                lemma_zone_index(zone_models(zones@), id@, i as int);
            }
            return Some(i);
        }
        i = i + 1;
    }
    proof {
        lemma_zone_absent(zone_models(zones@), id@);
    }
    None
}

/// Moves zones to other host nodes.
pub fn adopt_zones(zones: &mut Vec<MemoryZoneConfig>, updates: &[MemoryZoneConfig]) -> (r: Result<
    (),
    ZoneError,
>)
    ensures
        (zone_models(final(zones)@), r) == adopt(zone_models(old(zones)@), zone_models(updates@)),
{
    let ghost all = zone_models(updates@);
    let ghost whole = adopt(zone_models(zones@), all);
    let mut i: usize = 0;
    assert(all.skip(0) =~= all);
    while i < updates.len()
        invariant
            i <= updates@.len(),
            all == zone_models(updates@),
            adopt(zone_models(zones@), all.skip(i as int)) == whole,
            whole == adopt(zone_models(old(zones)@), zone_models(updates@)),
        decreases updates@.len() - i,
    {
        proof {
            assert(all.skip(i as int).first() == updates@[i as int]@);
            assert(all.skip(i as int).drop_first() =~= all.skip(i + 1));
        }
        match find_zone(zones, &updates[i].id) {
            None => {
                return Err(ZoneError::UnknownZone);
            },
            Some(k) => {
                if zones[k].size != updates[i].size {
                    return Err(ZoneError::SizeChanged);
                }
                let ghost before = zone_models(zones@);
                zones[k].host_numa_node = updates[i].host_numa_node;
                assert(zone_models(zones@) =~= before.update(
                    k as int,
                    ZoneModel {
                        host_numa_node: updates@[i as int].host_numa_node,
                        ..before[k as int]
                    },
                ));
            },
        }
        i = i + 1;
    }
    assert(all.skip(i as int) =~= Seq::empty());
    Ok(())
}

impl<D> VmConfig<D> {
    /// Adds a device.
    pub fn add(&mut self, addition: Addition<D>)
        ensures
            final(self)@ == old(self)@.add(addition@),
    {
        match addition {
            Addition::Listed(kind, d) => match kind {
                DeviceKind::Device => add_to_config(&mut self.devices, d),
                DeviceKind::UserDevice => add_to_config(&mut self.user_devices, d),
                DeviceKind::Disk => add_to_config(&mut self.disks, d),
                DeviceKind::Fs => add_to_config(&mut self.fs, d),
                DeviceKind::Pmem => add_to_config(&mut self.pmem, d),
                DeviceKind::Vdpa => add_to_config(&mut self.vdpa, d),
            },
            Addition::Net(n) => {
                let ghost before = self.net;
                add_to_config(&mut self.net, n);
                proof {
                    let now = net_models(self.net->Some_0@);
                    if let Some(v) = before {
                        assert(now =~= net_models(v@).push(n@));
                    } else {
                        assert(now =~= seq![n@]);
                    }
                }
            },
            Addition::Vsock(d) => {
                self.vsock = Some(d);
            },
        }
    }

    /// Changes sizes.
    pub fn resize(&mut self, desired_ram: Option<u64>, desired_balloon: Option<u64>)
        ensures
            final(self)@ == old(self)@.resize(desired_ram, desired_balloon),
    {
        if let Some(size) = desired_ram {
            self.memory.size = size;
        }
        if let Some(size) = desired_balloon {
            if self.balloon.is_some() {
                self.balloon = Some(size);
            }
        }
    }

    /// Resizes the first zone with an identifier, and says whether there is
    /// one.
    pub fn resize_zone(&mut self, id: &String, desired_ram: u64) -> (r: bool)
        ensures
            match old(self)@.zones {
                None => !r && final(self)@ == old(self)@,
                Some(zones) => match zone_index(zones, id@) {
                    None => !r && final(self)@ == old(self)@,
                    Some(i) => r && final(self)@ == (ConfigModel {
                        zones: Some(
                            zones.update(i, ZoneModel { size: desired_ram, ..zones[i] }),
                        ),
                        ..old(self)@
                    }),
                },
            },
    {
        match &mut self.memory.zones {
            None => false,
            Some(zones) => match find_zone(zones, id) {
                None => false,
                Some(i) => {
                    let ghost before = zone_models(zones@);
                    zones[i].size = desired_ram;
                    assert(zone_models(zones@) =~= before.update(
                        i as int,
                        ZoneModel { size: desired_ram, ..before[i as int] },
                    ));
                    true
                },
            },
        }
    }

    /// Moves zones to other host nodes; nothing to do where there are no
    /// updates.
    pub fn move_zones(&mut self, updates: &[MemoryZoneConfig]) -> (r: Result<(), ZoneError>)
        ensures
            updates@.len() == 0 ==> r is Ok && final(self)@ == old(self)@,
            updates@.len() > 0 ==> match old(self)@.zones {
                None => r == Err::<(), ZoneError>(ZoneError::NoZones) && final(self)@ == old(self)@,
                Some(zones) => {
                    let (moved, result) = adopt(zones, zone_models(updates@));
                    r == result && final(self)@ == (ConfigModel {
                        zones: Some(moved),
                        ..old(self)@
                    })
                },
            },
    {
        if updates.len() == 0 {
            return Ok(());
        }
        match &mut self.memory.zones {
            None => Err(ZoneError::NoZones),
            Some(zones) => adopt_zones(zones, updates),
        }
    }

    /// Gives network devices new descriptors.
    pub fn restore_net_fds(&mut self, restored: &[RestoredNetConfig])
        ensures
            final(self)@ == old(self)@.with_net_fds(restored_models(restored@)),
    {
        if let Some(nets) = &mut self.net {
            update_net_fds(nets, restored);
        }
    }
}

/// What a hypervisor needs to know to create a VM. Some of it only with the
/// features that it is about.
#[derive(Clone, Copy, Debug, PartialEq, Eq, Structural)]
pub struct HypervisorVmConfig {
    pub tdx_enabled: Option<bool>,
    pub sev_snp_enabled: Option<bool>,
    pub mem_size: Option<u64>,
    pub nested: bool,
    pub smt_enabled: bool,
}

/// Whether the hypervisor's interrupt controller has to be extended, because an
/// APIC id of the VM is above the limit that holds without.
pub fn needs_x2apic(max_apic_id: u32, legacy_limit: u32) -> (r: bool)
    ensures
        r == (max_apic_id > legacy_limit),
{
    max_apic_id > legacy_limit
}

/// What a hypervisor needs to know of a configuration whose memory adds up to
/// `total_size`, with or without support for TDX and SEV-SNP.
pub fn hypervisor_vm_config<D>(
    config: &VmConfig<D>,
    total_size: u64,
    tdx: bool,
    sev_snp: bool,
) -> (r: HypervisorVmConfig)
    ensures
        r.tdx_enabled == if tdx {
            Some(config@.tdx)
        } else {
            None
        },
        r.sev_snp_enabled == if sev_snp {
            Some(config@.sev_snp)
        } else {
            None
        },
        r.mem_size == if sev_snp {
            Some(total_size)
        } else {
            None
        },
        r.nested == config@.cpus.nested,
        r.smt_enabled == (config@.cpus.threads_per_core matches Some(n) && n > 1),
{
    HypervisorVmConfig {
        tdx_enabled: if tdx {
            Some(config.tdx)
        } else {
            None
        },
        sev_snp_enabled: if sev_snp {
            Some(config.sev_snp)
        } else {
            None
        },
        mem_size: if sev_snp {
            Some(total_size)
        } else {
            None
        },
        nested: config.cpus.nested,
        smt_enabled: match config.cpus.threads_per_core {
            Some(n) => n > 1,
            None => false,
        },
    }
}

} // verus!
