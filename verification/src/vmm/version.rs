//! What the monitor says of itself.
use crate::vmm::host::Host;
use crate::vmm::state::Vmm;
use vstd::prelude::*;

verus! {

/// The version of the monitor.
#[derive(Debug, Clone)]
pub struct VmmVersionInfo {
    pub build_version: String,
    pub version: String,
}

impl VmmVersionInfo {
    pub fn new(build_version: &str, version: &str) -> (r: Self)
        ensures
            r.build_version@ == build_version@,
            r.version@ == version@,
    {
        Self { build_version: build_version.to_owned(), version: version.to_owned() }
    }
}

/// What the monitor was built with.
#[derive(Debug, Clone, Copy)]
pub struct BuildFeatures {
    pub dbus_api: bool,
    pub dhat_heap: bool,
    pub fw_cfg: bool,
    pub guest_debug: bool,
    pub igvm: bool,
    pub io_uring: bool,
    pub kvm: bool,
    pub mshv: bool,
    pub sev_snp: bool,
    pub tdx: bool,
    pub tracing: bool,
    pub ivshmem: bool,
    /// Whether the processor is an x86-64 one.
    pub x86_64: bool,
}

impl BuildFeatures {
    /// Whether the features of the processors of two hosts are compared.
    pub open spec fn checks_cpuid(self) -> bool {
        self.kvm && self.x86_64
    }

    /// Whether the features of the processors of two hosts are compared.
    pub fn compares_cpuid(&self) -> (r: bool)
        ensures
            r == self.checks_cpuid(),
    {
        self.kvm && self.x86_64
    }
}

/// A list of one name, or of none.
pub open spec fn name_if(present: bool, name: Seq<char>) -> Seq<Seq<char>> {
    if present {
        seq![name]
    } else {
        Seq::empty()
    }
}

/// The names of the features.
pub open spec fn feature_names(f: BuildFeatures) -> Seq<Seq<char>> {
    name_if(f.dbus_api, "dbus_api"@) + name_if(f.dhat_heap, "dhat-heap"@) + name_if(
        f.fw_cfg,
        "fw_cfg"@,
    ) + name_if(f.guest_debug, "guest_debug"@) + name_if(f.igvm, "igvm"@) + name_if(
        f.io_uring,
        "io_uring"@,
    ) + name_if(f.kvm, "kvm"@) + name_if(f.mshv, "mshv"@) + name_if(f.sev_snp, "sev_snp"@)
        + name_if(f.tdx, "tdx"@) + name_if(f.tracing, "tracing"@) + name_if(f.ivshmem, "ivshmem"@)
}

/// The texts of strings.
pub open spec fn texts(v: Seq<String>) -> Seq<Seq<char>> {
    Seq::new(v.len(), |i: int| v[i]@)
}

fn push_if(out: &mut Vec<String>, present: bool, name: &str)
    ensures
        texts(final(out)@) == texts(old(out)@) + name_if(present, name@),
{
    if present {
        out.push(name.to_owned());
    }
    assert(texts(out@) =~= texts(old(out)@) + name_if(present, name@));
}

/// The names of the features that the monitor was built with.
pub fn feature_list(f: &BuildFeatures) -> (r: Vec<String>)
    ensures
        texts(r@) == feature_names(*f),
{
    let mut out: Vec<String> = Vec::new();
    push_if(&mut out, f.dbus_api, "dbus_api");
    push_if(&mut out, f.dhat_heap, "dhat-heap");
    push_if(&mut out, f.fw_cfg, "fw_cfg");
    push_if(&mut out, f.guest_debug, "guest_debug");
    push_if(&mut out, f.igvm, "igvm");
    push_if(&mut out, f.io_uring, "io_uring");
    push_if(&mut out, f.kvm, "kvm");
    push_if(&mut out, f.mshv, "mshv");
    push_if(&mut out, f.sev_snp, "sev_snp");
    push_if(&mut out, f.tdx, "tdx");
    push_if(&mut out, f.tracing, "tracing");
    push_if(&mut out, f.ivshmem, "ivshmem");
    assert(texts(out@) =~= feature_names(*f));
    out
}

/// The answer to a ping.
#[derive(Debug)]
pub struct VmmPingResponse {
    pub build_version: String,
    pub version: String,
    pub pid: i64,
    pub features: Vec<String>,
}

impl<H: Host> Vmm<H> {
    /// Answers a ping, in the process with the given number.
    pub fn vmm_ping(&self, pid: u32) -> (r: VmmPingResponse)
        ensures
            r.build_version@ == self@.version.build_version@,
            r.version@ == self@.version.version@,
            r.pid == pid,
            texts(r.features@) == feature_names(self@.features),
    {
        VmmPingResponse {
            build_version: self.version.build_version.clone(),
            version: self.version.version.clone(),
            pid: pid as i64,
            features: feature_list(&self.features),
        }
    }
}

} // verus!
