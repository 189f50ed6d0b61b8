//! SKUs: the hardware a class of machines is expected to have, and the differences between
//! a machine's actual SKU and its expected one.

use vstd::prelude::*;

use crate::keyed::{first_index, lemma_first_index_at, lemma_first_index_none};
use crate::text::{decimal, push_decimal, push_str, str_eq};

verus! {

/// The chassis of a SKU.
#[derive(Clone, Debug, Default)]
pub struct SkuComponentChassis {
    pub vendor: String,
    pub model: String,
    pub architecture: String,
}

/// A kind of CPU in a SKU, with how many sockets hold it.
#[derive(Clone, Debug)]
pub struct SkuComponentCpu {
    pub vendor: String,
    pub model: String,
    pub thread_count: u32,
    pub count: u32,
}

/// A kind of GPU in a SKU, with how many there are.
#[derive(Clone, Debug)]
pub struct SkuComponentGpu {
    pub vendor: String,
    pub model: String,
    pub total_memory: String,
    pub count: u32,
}

/// A kind of memory module in a SKU, with how many there are.
#[derive(Clone, Debug)]
pub struct SkuComponentMemory {
    pub memory_type: String,
    pub capacity_mb: u32,
    pub count: u32,
}

/// A kind of InfiniBand device in a SKU.
#[derive(Clone, Debug)]
pub struct SkuComponentInfinibandDevices {
    /// The vendor, e.g. `Mellanox`.
    pub vendor: String,
    /// The device name, e.g. `MT2910 Family [ConnectX-7]`.
    pub model: String,
    /// How many devices of this vendor and model there are.
    pub count: u32,
    /// The indexes of the devices that are not active and cannot be used by instances.
    pub inactive_devices: Vec<u32>,
}

/// A kind of storage device in a SKU, with how many there are.
#[derive(Clone, Debug)]
pub struct SkuComponentStorage {
    pub model: String,
    pub count: u32,
}

/// The TPM of a SKU.
#[derive(Clone, Debug)]
pub struct SkuComponentTpm {
    pub vendor: String,
    pub version: String,
}

/// The hardware components of a SKU.
#[derive(Clone, Debug)]
pub struct SkuComponents {
    pub chassis: SkuComponentChassis,
    pub cpus: Vec<SkuComponentCpu>,
    pub gpus: Vec<SkuComponentGpu>,
    pub memory: Vec<SkuComponentMemory>,
    pub infiniband_devices: Vec<SkuComponentInfinibandDevices>,
    pub storage: Vec<SkuComponentStorage>,
    pub tpm: Option<SkuComponentTpm>,
}

/// A SKU.
#[derive(Clone, Debug)]
pub struct Sku {
    pub schema_version: u32,
    pub id: String,
    pub description: String,
    /// When the SKU was created, in seconds since the Unix epoch.
    pub created: i64,
    pub components: SkuComponents,
    pub device_type: Option<String>,
}

/// What the hardware inventory reports of one kind of CPU.
#[derive(Clone, Debug)]
pub struct CpuInfo {
    pub vendor: String,
    pub model: String,
    pub sockets: u32,
    pub threads: u32,
}

// ---------------------------------------------------------------------------
// Mathematical values
// ---------------------------------------------------------------------------

pub struct ChassisView {
    pub vendor: Seq<char>,
    pub model: Seq<char>,
    pub architecture: Seq<char>,
}

pub struct CpuView {
    pub vendor: Seq<char>,
    pub model: Seq<char>,
    pub thread_count: u32,
    pub count: u32,
}

pub struct GpuView {
    pub vendor: Seq<char>,
    pub model: Seq<char>,
    pub total_memory: Seq<char>,
    pub count: u32,
}

pub struct MemoryView {
    pub memory_type: Seq<char>,
    pub capacity_mb: u32,
    pub count: u32,
}

pub struct IbView {
    pub vendor: Seq<char>,
    pub model: Seq<char>,
    pub count: u32,
    pub inactive_devices: Seq<u32>,
}

pub struct StorageView {
    pub model: Seq<char>,
    pub count: u32,
}

pub struct TpmView {
    pub vendor: Seq<char>,
    pub version: Seq<char>,
}

pub struct ComponentsView {
    pub chassis: ChassisView,
    pub cpus: Seq<CpuView>,
    pub gpus: Seq<GpuView>,
    pub memory: Seq<MemoryView>,
    pub infiniband_devices: Seq<IbView>,
    pub storage: Seq<StorageView>,
    pub tpm: Option<TpmView>,
}

impl View for SkuComponentChassis {
    type V = ChassisView;

    open spec fn view(&self) -> ChassisView {
        ChassisView { vendor: self.vendor@, model: self.model@, architecture: self.architecture@ }
    }
}

impl View for SkuComponentCpu {
    type V = CpuView;

    open spec fn view(&self) -> CpuView {
        CpuView { vendor: self.vendor@, model: self.model@, thread_count: self.thread_count, count: self.count }
    }
}

impl View for SkuComponentGpu {
    type V = GpuView;

    open spec fn view(&self) -> GpuView {
        GpuView { vendor: self.vendor@, model: self.model@, total_memory: self.total_memory@, count: self.count }
    }
}

impl View for SkuComponentMemory {
    type V = MemoryView;

    open spec fn view(&self) -> MemoryView {
        MemoryView { memory_type: self.memory_type@, capacity_mb: self.capacity_mb, count: self.count }
    }
}

impl View for SkuComponentInfinibandDevices {
    type V = IbView;

    open spec fn view(&self) -> IbView {
        IbView { vendor: self.vendor@, model: self.model@, count: self.count, inactive_devices: self.inactive_devices@ }
    }
}

impl View for SkuComponentStorage {
    type V = StorageView;

    open spec fn view(&self) -> StorageView {
        StorageView { model: self.model@, count: self.count }
    }
}

impl View for SkuComponentTpm {
    type V = TpmView;

    open spec fn view(&self) -> TpmView {
        TpmView { vendor: self.vendor@, version: self.version@ }
    }
}

impl View for SkuComponents {
    type V = ComponentsView;

    open spec fn view(&self) -> ComponentsView {
        ComponentsView {
            chassis: self.chassis@,
            cpus: cpu_views(self.cpus@),
            gpus: gpu_views(self.gpus@),
            memory: memory_views(self.memory@),
            infiniband_devices: ib_views(self.infiniband_devices@),
            storage: storage_views(self.storage@),
            tpm: match self.tpm {
                Some(t) => Some(t@),
                None => None,
            },
        }
    }
}

pub open spec fn cpu_views(s: Seq<SkuComponentCpu>) -> Seq<CpuView> {
    s.map_values(|c: SkuComponentCpu| c@)
}

pub open spec fn gpu_views(s: Seq<SkuComponentGpu>) -> Seq<GpuView> {
    s.map_values(|c: SkuComponentGpu| c@)
}

pub open spec fn memory_views(s: Seq<SkuComponentMemory>) -> Seq<MemoryView> {
    s.map_values(|c: SkuComponentMemory| c@)
}

pub open spec fn ib_views(s: Seq<SkuComponentInfinibandDevices>) -> Seq<IbView> {
    s.map_values(|c: SkuComponentInfinibandDevices| c@)
}

pub open spec fn storage_views(s: Seq<SkuComponentStorage>) -> Seq<StorageView> {
    s.map_values(|c: SkuComponentStorage| c@)
}

/// The texts of a list of strings.
pub open spec fn texts(s: Seq<String>) -> Seq<Seq<char>> {
    s.map_values(|t: String| t@)
}

impl SkuComponentCpu {
    /// The SKU component for a kind of CPU in the hardware inventory.
    pub fn from(value: &CpuInfo) -> (r: SkuComponentCpu)
        ensures
            r@ == (CpuView { vendor: value.vendor@, model: value.model@, thread_count: value.threads, count: value.sockets }),
    {
        SkuComponentCpu {
            vendor: value.vendor.clone(),
            model: value.model.clone(),
            count: value.sockets,
            thread_count: value.threads,
        }
    }
}

// ---------------------------------------------------------------------------
// Texts
// ---------------------------------------------------------------------------

/// How a GPU component is displayed: `<count>x<vendor>/<model>`.
pub open spec fn gpu_text(g: GpuView) -> Seq<char> {
    decimal(g.count as nat) + "x"@ + g.vendor + "/"@ + g.model
}

/// How a storage component is displayed: `model: <model> count <count>`.
pub open spec fn storage_text(s: StorageView) -> Seq<char> {
    "model: "@ + s.model + " count "@ + decimal(s.count as nat)
}

/// How a TPM component is displayed: `vendor: <vendor> version: <version>`.
pub open spec fn tpm_text(t: TpmView) -> Seq<char> {
    "vendor: "@ + t.vendor + " version: "@ + t.version
}

/// How a list of numbers is displayed for debugging: `[1, 3]`.
pub open spec fn number_list_text(xs: Seq<u32>) -> Seq<char> {
    "["@ + number_list_items(xs) + "]"@
}

/// The items of a number list, separated by `, `.
pub open spec fn number_list_items(xs: Seq<u32>) -> Seq<char>
    decreases xs.len(),
{
    if xs.len() == 0 {
        Seq::empty()
    } else if xs.len() == 1 {
        decimal(xs[0] as nat)
    } else {
        number_list_items(xs.drop_last()) + ", "@ + decimal(xs.last() as nat)
    }
}

impl SkuComponentGpu {
    /// The component as it is displayed.
    pub fn to_string(&self) -> (r: String)
        ensures
            r@ == gpu_text(self@),
    {
        let mut s = String::new();
        push_decimal(&mut s, self.count as u64);
        push_str(&mut s, "x");
        push_str(&mut s, self.vendor.as_str());
        push_str(&mut s, "/");
        push_str(&mut s, self.model.as_str());
        assert(s@ =~= gpu_text(self@));
        s
    }
}

impl SkuComponentStorage {
    /// The component as it is displayed.
    pub fn to_string(&self) -> (r: String)
        ensures
            r@ == storage_text(self@),
    {
        let mut s = String::from_str("model: ");
        push_str(&mut s, self.model.as_str());
        push_str(&mut s, " count ");
        push_decimal(&mut s, self.count as u64);
        assert(s@ =~= storage_text(self@));
        s
    }
}

impl SkuComponentTpm {
    /// The component as it is displayed.
    pub fn to_string(&self) -> (r: String)
        ensures
            r@ == tpm_text(self@),
    {
        let mut s = String::from_str("vendor: ");
        push_str(&mut s, self.vendor.as_str());
        push_str(&mut s, " version: ");
        push_str(&mut s, self.version.as_str());
        assert(s@ =~= tpm_text(self@));
        s
    }
}

/// Appends the debugging display of a number list.
fn push_number_list(s: &mut String, xs: &Vec<u32>)
    ensures
        final(s)@ == old(s)@ + number_list_text(xs@),
{
    push_str(s, "[");
    let ghost start = s@;
    let mut i: usize = 0;
    while i < xs.len()
        invariant
            i <= xs@.len(),
            s@ == start + number_list_items(xs@.take(i as int)),
        decreases xs@.len() - i,
    {
        assert(xs@.take(i + 1).drop_last() =~= xs@.take(i as int));
        if i > 0 {
            push_str(s, ", ");
        } else {
            assert(xs@.take(0) =~= Seq::<u32>::empty());
        }
        push_decimal(s, xs[i] as u64);
        proof {
            if i == 0 {
                assert(number_list_items(xs@.take(1)) == decimal(xs@[0] as nat));
            }
        }
        assert(s@ =~= start + number_list_items(xs@.take(i + 1)));
        i = i + 1;
    }
    assert(xs@.take(xs@.len() as int) =~= xs@);
    push_str(s, "]");
    assert(s@ =~= old(s)@ + number_list_text(xs@));
}


// ---------------------------------------------------------------------------
// Keyed tables
// ---------------------------------------------------------------------------

// ---------------------------------------------------------------------------
// The differences between two SKUs
// ---------------------------------------------------------------------------

pub open spec fn gpu_key(g: GpuView) -> Seq<char> {
    g.model
}

pub open spec fn ib_key(d: IbView) -> (Seq<char>, Seq<char>) {
    (d.vendor, d.model)
}

pub open spec fn storage_key(s: StorageView) -> Seq<char> {
    s.model
}

/// The GPUs of a SKU keyed by model; of several GPUs with one model, the last counts.
pub open spec fn gpu_table(gs: Seq<GpuView>) -> Seq<GpuView>
    decreases gs.len(),
{
    if gs.len() == 0 {
        Seq::empty()
    } else {
        let t = gpu_table(gs.drop_last());
        let i = first_index(t.map_values(|g: GpuView| gpu_key(g)), gpu_key(gs.last()));
        if i >= 0 { t.update(i, gs.last()) } else { t.push(gs.last()) }
    }
}

/// The InfiniBand devices of a SKU keyed by vendor and model; the last of a key counts.
pub open spec fn ib_table(ds: Seq<IbView>) -> Seq<IbView>
    decreases ds.len(),
{
    if ds.len() == 0 {
        Seq::empty()
    } else {
        let t = ib_table(ds.drop_last());
        let i = first_index(t.map_values(|d: IbView| ib_key(d)), ib_key(ds.last()));
        if i >= 0 { t.update(i, ds.last()) } else { t.push(ds.last()) }
    }
}

/// The storage devices of a SKU keyed by model; the last of a model counts.
pub open spec fn storage_table(ss: Seq<StorageView>) -> Seq<StorageView>
    decreases ss.len(),
{
    if ss.len() == 0 {
        Seq::empty()
    } else {
        let t = storage_table(ss.drop_last());
        let i = first_index(t.map_values(|s: StorageView| storage_key(s)), storage_key(ss.last()));
        if i >= 0 { t.update(i, ss.last()) } else { t.push(ss.last()) }
    }
}

pub open spec fn msg_chassis_model(a: Seq<char>, e: Seq<char>) -> Seq<char> {
    "Actual chassis model \""@ + a + "\" does not match expected \""@ + e + "\""@
}

pub open spec fn msg_chassis_architecture(a: Seq<char>, e: Seq<char>) -> Seq<char> {
    "Actual chassis architecture \""@ + a + "\" does not match expected \""@ + e + "\""@
}

pub open spec fn msg_cpu_count(a: nat, e: nat) -> Seq<char> {
    "Number of CPUs ("@ + decimal(a) + ") does not match expected ("@ + decimal(e) + ")"@
}

pub open spec fn msg_cpu_threads(a: nat, e: nat) -> Seq<char> {
    "Number of CPU threads ("@ + decimal(a) + ") does not match expected ("@ + decimal(e) + ")"@
}

pub open spec fn msg_unexpected_gpu(g: GpuView) -> Seq<char> {
    "Unexpected GPU config ("@ + gpu_text(g) + ") found"@
}

pub open spec fn msg_gpu_count(e: GpuView, a: GpuView) -> Seq<char> {
    "Expected gpu count ("@ + decimal(e.count as nat) + ") does not match actual ("@ + decimal(a.count as nat)
        + ") for gpu model ("@ + e.model + ")"@
}

pub open spec fn msg_missing_gpu(g: GpuView) -> Seq<char> {
    "Missing GPU config: "@ + gpu_text(g)
}

pub open spec fn msg_ib_mismatch(e: IbView, a: IbView) -> Seq<char> {
    "Configuration mismatch for InfiniBand devices of Vendor: \""@ + e.vendor + "\" and Model: \""@ + e.model
        + "\". "@ + "Expected \"count: "@ + decimal(e.count as nat) + ", inactive_devices: "@
        + number_list_text(e.inactive_devices) + "\". "@ + "Actual \"count: "@ + decimal(a.count as nat)
        + ", inactive_devices: "@ + number_list_text(a.inactive_devices) + "\". "@
}

pub open spec fn msg_unexpected_ib(d: IbView) -> Seq<char> {
    "Unexpected "@ + decimal(d.count as nat) + " InfiniBand devices of Vendor: \""@ + d.vendor + "\" and Model: \""@
        + d.model + "\""@
}

pub open spec fn msg_missing_ib(d: IbView) -> Seq<char> {
    "Missing "@ + decimal(d.count as nat) + " InfiniBand devices of Vendor: \""@ + d.vendor + "\" and Model: \""@
        + d.model + "\""@
}

pub open spec fn msg_memory(a: nat, e: nat) -> Seq<char> {
    "Actual memory ("@ + decimal(a) + ") differs from expected ("@ + decimal(e) + ")"@
}

pub open spec fn msg_storage_count(e: StorageView, a: StorageView) -> Seq<char> {
    "Expected device count ("@ + decimal(e.count as nat) + ") does not match actual ("@ + decimal(a.count as nat)
        + ") for storage model ("@ + a.model + ")"@
}

pub open spec fn msg_missing_storage(s: StorageView) -> Seq<char> {
    "Missing storage config: "@ + storage_text(s)
}

pub open spec fn msg_unexpected_storage(s: StorageView) -> Seq<char> {
    "Found unexpected storage config: "@ + storage_text(s)
}

pub open spec fn msg_missing_tpm(e: TpmView) -> Seq<char> {
    "Missing a TPM module: version: "@ + e.version
}

pub open spec fn msg_unexpected_tpm(a: TpmView) -> Seq<char> {
    "Found unexpected TPM config: version: "@ + a.version
}

pub open spec fn msg_tpm_version(e: TpmView, a: TpmView) -> Seq<char> {
    "Expected TPM version ("@ + e.version + ") does not match actual ("@ + a.version + ")"@
}

/// The sum of `w` over the items of `s`.
pub open spec fn total<V>(s: Seq<V>, w: spec_fn(V) -> nat) -> nat
    decreases s.len(),
{
    if s.len() == 0 { 0 } else { total(s.drop_last(), w) + w(s.last()) }
}

/// The sockets of a kind of CPU.
pub open spec fn sockets() -> spec_fn(CpuView) -> nat {
    |c: CpuView| c.count as nat
}

/// The threads of a kind of CPU.
pub open spec fn threads() -> spec_fn(CpuView) -> nat {
    |c: CpuView| c.thread_count as nat
}

/// The memory of a kind of module, in MB: its capacity times how many there are.
pub open spec fn megabytes() -> spec_fn(MemoryView) -> nat {
    |m: MemoryView| (m.capacity_mb as nat) * (m.count as nat)
}

/// The sockets of all CPUs.
pub open spec fn cpu_count_sum(cs: Seq<CpuView>) -> nat {
    total(cs, sockets())
}

/// The threads of all CPUs.
pub open spec fn cpu_thread_sum(cs: Seq<CpuView>) -> nat {
    total(cs, threads())
}

/// The total memory, in MB.
pub open spec fn memory_total(ms: Seq<MemoryView>) -> nat {
    total(ms, megabytes())
}

proof fn lemma_total_prefix<V>(s: Seq<V>, w: spec_fn(V) -> nat, i: int)
    requires
        0 <= i <= s.len(),
    ensures
        total(s.take(i), w) <= total(s, w),
    decreases s.len() - i,
{
    if i < s.len() {
        lemma_total_prefix(s, w, i + 1);
        assert(s.take(i + 1).drop_last() =~= s.take(i));
    } else {
        assert(s.take(i) =~= s);
    }
}

/// Whether a message is added: a one-message or an empty list.
pub open spec fn when(cond: bool, msg: Seq<char>) -> Seq<Seq<char>> {
    if cond { seq![msg] } else { Seq::empty() }
}

/// Checking the actual GPUs one by one against the expected table: the messages so far, and
/// the expected GPUs not yet matched.
pub open spec fn gpu_pass(actual: Seq<GpuView>, table: Seq<GpuView>) -> (Seq<Seq<char>>, Seq<GpuView>)
    decreases actual.len(),
{
    if actual.len() == 0 {
        (Seq::empty(), table)
    } else {
        let (d, rem) = gpu_pass(actual.drop_last(), table);
        let a = actual.last();
        let i = first_index(rem.map_values(|g: GpuView| gpu_key(g)), gpu_key(a));
        if i < 0 {
            (d.push(msg_unexpected_gpu(a)), rem)
        } else {
            (d + when(rem[i].count != a.count, msg_gpu_count(rem[i], a)), rem.remove(i))
        }
    }
}

/// Checking the actual InfiniBand devices one by one against the expected table.
pub open spec fn ib_pass(actual: Seq<IbView>, table: Seq<IbView>) -> (Seq<Seq<char>>, Seq<IbView>)
    decreases actual.len(),
{
    if actual.len() == 0 {
        (Seq::empty(), table)
    } else {
        let (d, rem) = ib_pass(actual.drop_last(), table);
        let a = actual.last();
        let i = first_index(rem.map_values(|x: IbView| ib_key(x)), ib_key(a));
        if i < 0 {
            (d.push(msg_unexpected_ib(a)), rem)
        } else {
            (d + when(rem[i].count != a.count || rem[i].inactive_devices != a.inactive_devices, msg_ib_mismatch(rem[i], a)), rem.remove(i))
        }
    }
}

/// Checking the expected storage devices one by one against the actual table.
pub open spec fn storage_pass(expected: Seq<StorageView>, table: Seq<StorageView>) -> (Seq<Seq<char>>, Seq<StorageView>)
    decreases expected.len(),
{
    if expected.len() == 0 {
        (Seq::empty(), table)
    } else {
        let (d, rem) = storage_pass(expected.drop_last(), table);
        let e = expected.last();
        let i = first_index(rem.map_values(|x: StorageView| storage_key(x)), storage_key(e));
        if i < 0 {
            (d.push(msg_missing_storage(e)), rem)
        } else {
            (d + when(rem[i].count != e.count, msg_storage_count(e, rem[i])), rem.remove(i))
        }
    }
}

pub open spec fn missing_gpu_msgs(gs: Seq<GpuView>) -> Seq<Seq<char>> {
    gs.map_values(|g: GpuView| msg_missing_gpu(g))
}

pub open spec fn missing_ib_msgs(ds: Seq<IbView>) -> Seq<Seq<char>> {
    ds.map_values(|x: IbView| msg_missing_ib(x))
}

pub open spec fn unexpected_storage_msgs(ss: Seq<StorageView>) -> Seq<Seq<char>> {
    ss.map_values(|x: StorageView| msg_unexpected_storage(x))
}

pub open spec fn gpu_diffs(a: Seq<GpuView>, e: Seq<GpuView>) -> Seq<Seq<char>> {
    let (d, rem) = gpu_pass(a, gpu_table(e));
    d + missing_gpu_msgs(rem)
}

pub open spec fn ib_diffs(a: Seq<IbView>, e: Seq<IbView>) -> Seq<Seq<char>> {
    let (d, rem) = ib_pass(a, ib_table(e));
    d + missing_ib_msgs(rem)
}

pub open spec fn storage_diffs(a: Seq<StorageView>, e: Seq<StorageView>) -> Seq<Seq<char>> {
    let (d, rem) = storage_pass(e, storage_table(a));
    d + unexpected_storage_msgs(rem)
}

pub open spec fn tpm_diffs(a: Option<TpmView>, e: Option<TpmView>) -> Seq<Seq<char>> {
    match (a, e) {
        (None, None) => Seq::empty(),
        (None, Some(et)) => seq![msg_missing_tpm(et)],
        (Some(at), None) => seq![msg_unexpected_tpm(at)],
        (Some(at), Some(et)) => when(at.version != et.version, msg_tpm_version(et, at)),
    }
}

/// The differences of an actual SKU from an expected one, in the order they are reported:
/// chassis, CPUs, GPUs, InfiniBand devices, memory, storage, TPM. GPUs and InfiniBand devices
/// are matched by key against the expected ones, storage devices the other way round; what
/// is left unmatched is reported after the matches, in the order its keys first appear.
pub open spec fn sku_diffs(a: ComponentsView, e: ComponentsView) -> Seq<Seq<char>> {
    when(a.chassis.model != e.chassis.model, msg_chassis_model(a.chassis.model, e.chassis.model))
        + when(a.chassis.architecture != e.chassis.architecture, msg_chassis_architecture(a.chassis.architecture, e.chassis.architecture))
        + when(cpu_count_sum(e.cpus) != cpu_count_sum(a.cpus), msg_cpu_count(cpu_count_sum(a.cpus), cpu_count_sum(e.cpus)))
        + when(cpu_thread_sum(e.cpus) != cpu_thread_sum(a.cpus), msg_cpu_threads(cpu_thread_sum(a.cpus), cpu_thread_sum(e.cpus)))
        + gpu_diffs(a.gpus, e.gpus)
        + ib_diffs(a.infiniband_devices, e.infiniband_devices)
        + when(memory_total(e.memory) != memory_total(a.memory), msg_memory(memory_total(a.memory), memory_total(e.memory)))
        + storage_diffs(a.storage, e.storage)
        + tpm_diffs(a.tpm, e.tpm)
}

/// Whether the CPU and memory totals of a SKU fit in a `u32`, as the comparison adds them up.
pub open spec fn totals_fit(c: ComponentsView) -> bool {
    &&& cpu_count_sum(c.cpus) <= u32::MAX
    &&& cpu_thread_sum(c.cpus) <= u32::MAX
    &&& memory_total(c.memory) <= u32::MAX
}

// ---------------------------------------------------------------------------
// Computing the differences
// ---------------------------------------------------------------------------

/// The entries of `vs` at the positions `idx`.
pub open spec fn pick<V>(vs: Seq<V>, idx: Seq<usize>) -> Seq<V> {
    idx.map_values(|k: usize| vs[k as int])
}

/// Whether every position in `idx` lies below `n`.
pub open spec fn in_range(idx: Seq<usize>, n: nat) -> bool {
    forall|j: int| 0 <= j < idx.len() ==> #[trigger] idx[j] < n
}

/// The first entry among those of `gs` at the positions `idx` whose model is `model`.
fn find_gpu(gs: &Vec<SkuComponentGpu>, idx: &Vec<usize>, model: &str) -> (r: Option<usize>)
    requires
        in_range(idx@, gs@.len()),
    ensures
        ({
            let i = first_index(pick(gpu_views(gs@), idx@).map_values(|g: GpuView| gpu_key(g)), model@);
            match r {
                Some(k) => k < idx@.len() && i == k,
                None => i == -1,
            }
        }),
{
    let ghost keys = pick(gpu_views(gs@), idx@).map_values(|g: GpuView| gpu_key(g));
    let mut i: usize = 0;
    while i < idx.len()
        invariant
            i <= idx@.len(),
            in_range(idx@, gs@.len()),
            keys == pick(gpu_views(gs@), idx@).map_values(|g: GpuView| gpu_key(g)),
            forall|j: int| 0 <= j < i ==> keys[j] != model@,
        decreases idx@.len() - i,
    {
        let k = idx[i];
        assert(k < gs@.len());
        if str_eq(gs[k].model.as_str(), model) {
            proof {
                lemma_first_index_at(keys, model@, i as int);
            }
            return Some(i);
        }
        i = i + 1;
    }
    proof {
        lemma_first_index_none(keys, model@);
    }
    None
}

/// The positions of the GPUs of `gs` as `gpu_table` keeps them.
fn gpu_table_exec(gs: &Vec<SkuComponentGpu>) -> (t: Vec<usize>)
    ensures
        in_range(t@, gs@.len()),
        pick(gpu_views(gs@), t@) == gpu_table(gpu_views(gs@)),
{
    let ghost v = gpu_views(gs@);
    let mut t: Vec<usize> = Vec::new();
    let mut j: usize = 0;
    while j < gs.len()
        invariant
            j <= gs@.len(),
            v == gpu_views(gs@),
            in_range(t@, gs@.len()),
            pick(v, t@) == gpu_table(v.take(j as int)),
        decreases gs@.len() - j,
    {
        assert(v.take(j + 1).drop_last() =~= v.take(j as int));
        match find_gpu(gs, &t, gs[j].model.as_str()) {
            Some(i) => {
                t.set(i, j);
            },
            None => {
                t.push(j);
            },
        }
        assert(pick(v, t@) =~= gpu_table(v.take(j + 1)));
        j = j + 1;
    }
    assert(v.take(gs@.len() as int) =~= v);
    t
}

fn unexpected_gpu_message(g: &SkuComponentGpu) -> (r: String)
    ensures
        r@ == msg_unexpected_gpu(g@),
{
    let mut s = String::from_str("Unexpected GPU config (");
    let t = g.to_string();
    push_str(&mut s, t.as_str());
    push_str(&mut s, ") found");
    assert(s@ =~= msg_unexpected_gpu(g@));
    s
}

fn gpu_count_message(e: &SkuComponentGpu, a: &SkuComponentGpu) -> (r: String)
    ensures
        r@ == msg_gpu_count(e@, a@),
{
    let mut s = String::from_str("Expected gpu count (");
    push_decimal(&mut s, e.count as u64);
    push_str(&mut s, ") does not match actual (");
    push_decimal(&mut s, a.count as u64);
    push_str(&mut s, ") for gpu model (");
    push_str(&mut s, e.model.as_str());
    push_str(&mut s, ")");
    assert(s@ =~= msg_gpu_count(e@, a@));
    s
}

fn missing_gpu_message(g: &SkuComponentGpu) -> (r: String)
    ensures
        r@ == msg_missing_gpu(g@),
{
    let mut s = String::from_str("Missing GPU config: ");
    let t = g.to_string();
    push_str(&mut s, t.as_str());
    assert(s@ =~= msg_missing_gpu(g@));
    s
}

/// Matches the actual GPUs one by one against the expected ones at the positions `table`.
fn gpu_pass_exec(actual: &Vec<SkuComponentGpu>, expected: &Vec<SkuComponentGpu>, table: Vec<usize>) -> (r: (
    Vec<String>,
    Vec<usize>,
))
    requires
        in_range(table@, expected@.len()),
    ensures
        in_range(r.1@, expected@.len()),
        texts(r.0@) == gpu_pass(gpu_views(actual@), pick(gpu_views(expected@), table@)).0,
        pick(gpu_views(expected@), r.1@) == gpu_pass(gpu_views(actual@), pick(gpu_views(expected@), table@)).1,
{
    let ghost av = gpu_views(actual@);
    let ghost ev = gpu_views(expected@);
    let ghost t0 = pick(ev, table@);
    let mut diffs: Vec<String> = Vec::new();
    let mut rem = table;
    let mut j: usize = 0;
    while j < actual.len()
        invariant
            j <= actual@.len(),
            av == gpu_views(actual@),
            ev == gpu_views(expected@),
            in_range(rem@, expected@.len()),
            texts(diffs@) == gpu_pass(av.take(j as int), t0).0,
            pick(ev, rem@) == gpu_pass(av.take(j as int), t0).1,
        decreases actual@.len() - j,
    {
        assert(av.take(j + 1).drop_last() =~= av.take(j as int));
        let a = &actual[j];
        match find_gpu(expected, &rem, a.model.as_str()) {
            None => {
                diffs.push(unexpected_gpu_message(a));
            },
            Some(i) => {
                let k = rem[i];
                assert(k < expected@.len());
                let e = &expected[k];
                if e.count != a.count {
                    diffs.push(gpu_count_message(e, a));
                }
                rem.remove(i);
            },
        }
        assert(texts(diffs@) =~= gpu_pass(av.take(j + 1), t0).0);
        assert(pick(ev, rem@) =~= gpu_pass(av.take(j + 1), t0).1);
        j = j + 1;
    }
    assert(av.take(actual@.len() as int) =~= av);
    (diffs, rem)
}

/// The differences between the actual and the expected GPUs.
fn gpu_differences(actual: &Vec<SkuComponentGpu>, expected: &Vec<SkuComponentGpu>) -> (r: Vec<String>)
    ensures
        texts(r@) == gpu_diffs(gpu_views(actual@), gpu_views(expected@)),
{
    let table = gpu_table_exec(expected);
    let (mut diffs, rem) = gpu_pass_exec(actual, expected, table);
    let ghost d0 = texts(diffs@);
    let ghost ev = gpu_views(expected@);
    let mut j: usize = 0;
    while j < rem.len()
        invariant
            j <= rem@.len(),
            ev == gpu_views(expected@),
            in_range(rem@, expected@.len()),
            texts(diffs@) == d0 + missing_gpu_msgs(pick(ev, rem@).take(j as int)),
        decreases rem@.len() - j,
    {
        let k = rem[j];
        assert(k < expected@.len());
        let m = missing_gpu_message(&expected[k]);
        let ghost before = diffs@;
        diffs.push(m);
        assert(texts(diffs@) =~= texts(before).push(m@));
        assert(pick(ev, rem@)[j as int] == expected@[k as int]@);
        assert(missing_gpu_msgs(pick(ev, rem@).take(j + 1)) =~= missing_gpu_msgs(pick(ev, rem@).take(j as int)).push(
            msg_missing_gpu(expected@[k as int]@),
        ));
        assert(texts(diffs@) =~= d0 + missing_gpu_msgs(pick(ev, rem@).take(j + 1)));
        j = j + 1;
    }
    assert(pick(ev, rem@).take(rem@.len() as int) =~= pick(ev, rem@));
    diffs
}

/// The first entry among those of `ds` at the positions `idx` with this vendor and model.
fn find_ib(ds: &Vec<SkuComponentInfinibandDevices>, idx: &Vec<usize>, vendor: &str, model: &str) -> (r: Option<usize>)
    requires
        in_range(idx@, ds@.len()),
    ensures
        ({
            let i = first_index(pick(ib_views(ds@), idx@).map_values(|d: IbView| ib_key(d)), (vendor@, model@));
            match r {
                Some(k) => k < idx@.len() && i == k,
                None => i == -1,
            }
        }),
{
    let ghost keys = pick(ib_views(ds@), idx@).map_values(|d: IbView| ib_key(d));
    let mut i: usize = 0;
    while i < idx.len()
        invariant
            i <= idx@.len(),
            in_range(idx@, ds@.len()),
            keys == pick(ib_views(ds@), idx@).map_values(|d: IbView| ib_key(d)),
            forall|j: int| 0 <= j < i ==> keys[j] != (vendor@, model@),
        decreases idx@.len() - i,
    {
        let k = idx[i];
        assert(k < ds@.len());
        if str_eq(ds[k].vendor.as_str(), vendor) && str_eq(ds[k].model.as_str(), model) {
            proof {
                lemma_first_index_at(keys, (vendor@, model@), i as int);
            }
            return Some(i);
        }
        i = i + 1;
    }
    proof {
        lemma_first_index_none(keys, (vendor@, model@));
    }
    None
}

/// The positions of the InfiniBand devices of `ds` as `ib_table` keeps them.
fn ib_table_exec(ds: &Vec<SkuComponentInfinibandDevices>) -> (t: Vec<usize>)
    ensures
        in_range(t@, ds@.len()),
        pick(ib_views(ds@), t@) == ib_table(ib_views(ds@)),
{
    let ghost v = ib_views(ds@);
    let mut t: Vec<usize> = Vec::new();
    let mut j: usize = 0;
    while j < ds.len()
        invariant
            j <= ds@.len(),
            v == ib_views(ds@),
            in_range(t@, ds@.len()),
            pick(v, t@) == ib_table(v.take(j as int)),
        decreases ds@.len() - j,
    {
        assert(v.take(j + 1).drop_last() =~= v.take(j as int));
        match find_ib(ds, &t, ds[j].vendor.as_str(), ds[j].model.as_str()) {
            Some(i) => {
                t.set(i, j);
            },
            None => {
                t.push(j);
            },
        }
        assert(pick(v, t@) =~= ib_table(v.take(j + 1)));
        j = j + 1;
    }
    assert(v.take(ds@.len() as int) =~= v);
    t
}

/// Whether two lists of numbers are equal.
fn numbers_eq(a: &Vec<u32>, b: &Vec<u32>) -> (r: bool)
    ensures
        r == (a@ == b@),
{
    if a.len() != b.len() {
        return false;
    }
    let mut i: usize = 0;
    while i < a.len()
        invariant
            i <= a@.len(),
            a@.len() == b@.len(),
            forall|j: int| 0 <= j < i ==> a@[j] == b@[j],
        decreases a@.len() - i,
    {
        if a[i] != b[i] {
            return false;
        }
        i = i + 1;
    }
    assert(a@ =~= b@);
    true
}

fn ib_mismatch_message(e: &SkuComponentInfinibandDevices, a: &SkuComponentInfinibandDevices) -> (r: String)
    ensures
        r@ == msg_ib_mismatch(e@, a@),
{
    let mut s = String::from_str("Configuration mismatch for InfiniBand devices of Vendor: \"");
    push_str(&mut s, e.vendor.as_str());
    push_str(&mut s, "\" and Model: \"");
    push_str(&mut s, e.model.as_str());
    push_str(&mut s, "\". ");
    push_str(&mut s, "Expected \"count: ");
    push_decimal(&mut s, e.count as u64);
    push_str(&mut s, ", inactive_devices: ");
    push_number_list(&mut s, &e.inactive_devices);
    push_str(&mut s, "\". ");
    push_str(&mut s, "Actual \"count: ");
    push_decimal(&mut s, a.count as u64);
    push_str(&mut s, ", inactive_devices: ");
    push_number_list(&mut s, &a.inactive_devices);
    push_str(&mut s, "\". ");
    assert(s@ =~= msg_ib_mismatch(e@, a@));
    s
}

fn ib_count_message(prefix: &str, d: &SkuComponentInfinibandDevices) -> (r: String)
    ensures
        r@ == prefix@ + decimal(d.count as nat) + " InfiniBand devices of Vendor: \""@ + d.vendor@
            + "\" and Model: \""@ + d.model@ + "\""@,
{
    let mut s = String::from_str(prefix);
    push_decimal(&mut s, d.count as u64);
    push_str(&mut s, " InfiniBand devices of Vendor: \"");
    push_str(&mut s, d.vendor.as_str());
    push_str(&mut s, "\" and Model: \"");
    push_str(&mut s, d.model.as_str());
    push_str(&mut s, "\"");
    s
}

fn unexpected_ib_message(d: &SkuComponentInfinibandDevices) -> (r: String)
    ensures
        r@ == msg_unexpected_ib(d@),
{
    let s = ib_count_message("Unexpected ", d);
    assert(s@ =~= msg_unexpected_ib(d@));
    s
}

fn missing_ib_message(d: &SkuComponentInfinibandDevices) -> (r: String)
    ensures
        r@ == msg_missing_ib(d@),
{
    let s = ib_count_message("Missing ", d);
    assert(s@ =~= msg_missing_ib(d@));
    s
}

/// Matches the actual InfiniBand devices one by one against the expected ones at `table`.
fn ib_pass_exec(
    actual: &Vec<SkuComponentInfinibandDevices>,
    expected: &Vec<SkuComponentInfinibandDevices>,
    table: Vec<usize>,
) -> (r: (Vec<String>, Vec<usize>))
    requires
        in_range(table@, expected@.len()),
    ensures
        in_range(r.1@, expected@.len()),
        texts(r.0@) == ib_pass(ib_views(actual@), pick(ib_views(expected@), table@)).0,
        pick(ib_views(expected@), r.1@) == ib_pass(ib_views(actual@), pick(ib_views(expected@), table@)).1,
{
    let ghost av = ib_views(actual@);
    let ghost ev = ib_views(expected@);
    let ghost t0 = pick(ev, table@);
    let mut diffs: Vec<String> = Vec::new();
    let mut rem = table;
    let mut j: usize = 0;
    while j < actual.len()
        invariant
            j <= actual@.len(),
            av == ib_views(actual@),
            ev == ib_views(expected@),
            in_range(rem@, expected@.len()),
            texts(diffs@) == ib_pass(av.take(j as int), t0).0,
            pick(ev, rem@) == ib_pass(av.take(j as int), t0).1,
        decreases actual@.len() - j,
    {
        assert(av.take(j + 1).drop_last() =~= av.take(j as int));
        let a = &actual[j];
        match find_ib(expected, &rem, a.vendor.as_str(), a.model.as_str()) {
            None => {
                diffs.push(unexpected_ib_message(a));
            },
            Some(i) => {
                let k = rem[i];
                assert(k < expected@.len());
                let e = &expected[k];
                if e.count != a.count || !numbers_eq(&e.inactive_devices, &a.inactive_devices) {
                    diffs.push(ib_mismatch_message(e, a));
                }
                rem.remove(i);
            },
        }
        assert(texts(diffs@) =~= ib_pass(av.take(j + 1), t0).0);
        assert(pick(ev, rem@) =~= ib_pass(av.take(j + 1), t0).1);
        j = j + 1;
    }
    assert(av.take(actual@.len() as int) =~= av);
    (diffs, rem)
}

/// The differences between the actual and the expected InfiniBand devices.
fn ib_differences(actual: &Vec<SkuComponentInfinibandDevices>, expected: &Vec<SkuComponentInfinibandDevices>) -> (r:
    Vec<String>)
    ensures
        texts(r@) == ib_diffs(ib_views(actual@), ib_views(expected@)),
{
    let table = ib_table_exec(expected);
    let (mut diffs, rem) = ib_pass_exec(actual, expected, table);
    let ghost d0 = texts(diffs@);
    let ghost ev = ib_views(expected@);
    let mut j: usize = 0;
    while j < rem.len()
        invariant
            j <= rem@.len(),
            ev == ib_views(expected@),
            in_range(rem@, expected@.len()),
            texts(diffs@) == d0 + missing_ib_msgs(pick(ev, rem@).take(j as int)),
        decreases rem@.len() - j,
    {
        let k = rem[j];
        assert(k < expected@.len());
        let m = missing_ib_message(&expected[k]);
        let ghost before = diffs@;
        diffs.push(m);
        assert(texts(diffs@) =~= texts(before).push(m@));
        assert(pick(ev, rem@)[j as int] == expected@[k as int]@);
        assert(missing_ib_msgs(pick(ev, rem@).take(j + 1)) =~= missing_ib_msgs(pick(ev, rem@).take(j as int)).push(
            msg_missing_ib(expected@[k as int]@),
        ));
        assert(texts(diffs@) =~= d0 + missing_ib_msgs(pick(ev, rem@).take(j + 1)));
        j = j + 1;
    }
    assert(pick(ev, rem@).take(rem@.len() as int) =~= pick(ev, rem@));
    diffs
}

/// The first entry among those of `ss` at the positions `idx` whose model is `model`.
fn find_storage(ss: &Vec<SkuComponentStorage>, idx: &Vec<usize>, model: &str) -> (r: Option<usize>)
    requires
        in_range(idx@, ss@.len()),
    ensures
        ({
            let i = first_index(pick(storage_views(ss@), idx@).map_values(|x: StorageView| storage_key(x)), model@);
            match r {
                Some(k) => k < idx@.len() && i == k,
                None => i == -1,
            }
        }),
{
    let ghost keys = pick(storage_views(ss@), idx@).map_values(|x: StorageView| storage_key(x));
    let mut i: usize = 0;
    while i < idx.len()
        invariant
            i <= idx@.len(),
            in_range(idx@, ss@.len()),
            keys == pick(storage_views(ss@), idx@).map_values(|x: StorageView| storage_key(x)),
            forall|j: int| 0 <= j < i ==> keys[j] != model@,
        decreases idx@.len() - i,
    {
        let k = idx[i];
        assert(k < ss@.len());
        if str_eq(ss[k].model.as_str(), model) {
            proof {
                lemma_first_index_at(keys, model@, i as int);
            }
            return Some(i);
        }
        i = i + 1;
    }
    proof {
        lemma_first_index_none(keys, model@);
    }
    None
}

/// The positions of the storage devices of `ss` as `storage_table` keeps them.
fn storage_table_exec(ss: &Vec<SkuComponentStorage>) -> (t: Vec<usize>)
    ensures
        in_range(t@, ss@.len()),
        pick(storage_views(ss@), t@) == storage_table(storage_views(ss@)),
{
    let ghost v = storage_views(ss@);
    let mut t: Vec<usize> = Vec::new();
    let mut j: usize = 0;
    while j < ss.len()
        invariant
            j <= ss@.len(),
            v == storage_views(ss@),
            in_range(t@, ss@.len()),
            pick(v, t@) == storage_table(v.take(j as int)),
        decreases ss@.len() - j,
    {
        assert(v.take(j + 1).drop_last() =~= v.take(j as int));
        match find_storage(ss, &t, ss[j].model.as_str()) {
            Some(i) => {
                t.set(i, j);
            },
            None => {
                t.push(j);
            },
        }
        assert(pick(v, t@) =~= storage_table(v.take(j + 1)));
        j = j + 1;
    }
    assert(v.take(ss@.len() as int) =~= v);
    t
}

fn storage_count_message(e: &SkuComponentStorage, a: &SkuComponentStorage) -> (r: String)
    ensures
        r@ == msg_storage_count(e@, a@),
{
    let mut s = String::from_str("Expected device count (");
    push_decimal(&mut s, e.count as u64);
    push_str(&mut s, ") does not match actual (");
    push_decimal(&mut s, a.count as u64);
    push_str(&mut s, ") for storage model (");
    push_str(&mut s, a.model.as_str());
    push_str(&mut s, ")");
    assert(s@ =~= msg_storage_count(e@, a@));
    s
}

fn missing_storage_message(e: &SkuComponentStorage) -> (r: String)
    ensures
        r@ == msg_missing_storage(e@),
{
    let mut s = String::from_str("Missing storage config: ");
    let t = e.to_string();
    push_str(&mut s, t.as_str());
    assert(s@ =~= msg_missing_storage(e@));
    s
}

fn unexpected_storage_message(a: &SkuComponentStorage) -> (r: String)
    ensures
        r@ == msg_unexpected_storage(a@),
{
    let mut s = String::from_str("Found unexpected storage config: ");
    let t = a.to_string();
    push_str(&mut s, t.as_str());
    assert(s@ =~= msg_unexpected_storage(a@));
    s
}

/// Matches the expected storage devices one by one against the actual ones at `table`.
fn storage_pass_exec(expected: &Vec<SkuComponentStorage>, actual: &Vec<SkuComponentStorage>, table: Vec<usize>) -> (r: (
    Vec<String>,
    Vec<usize>,
))
    requires
        in_range(table@, actual@.len()),
    ensures
        in_range(r.1@, actual@.len()),
        texts(r.0@) == storage_pass(storage_views(expected@), pick(storage_views(actual@), table@)).0,
        pick(storage_views(actual@), r.1@) == storage_pass(storage_views(expected@), pick(storage_views(actual@), table@)).1,
{
    let ghost ev = storage_views(expected@);
    let ghost av = storage_views(actual@);
    let ghost t0 = pick(av, table@);
    let mut diffs: Vec<String> = Vec::new();
    let mut rem = table;
    let mut j: usize = 0;
    while j < expected.len()
        invariant
            j <= expected@.len(),
            ev == storage_views(expected@),
            av == storage_views(actual@),
            in_range(rem@, actual@.len()),
            texts(diffs@) == storage_pass(ev.take(j as int), t0).0,
            pick(av, rem@) == storage_pass(ev.take(j as int), t0).1,
        decreases expected@.len() - j,
    {
        assert(ev.take(j + 1).drop_last() =~= ev.take(j as int));
        let e = &expected[j];
        match find_storage(actual, &rem, e.model.as_str()) {
            None => {
                diffs.push(missing_storage_message(e));
            },
            Some(i) => {
                let k = rem[i];
                assert(k < actual@.len());
                let a = &actual[k];
                if a.count != e.count {
                    diffs.push(storage_count_message(e, a));
                }
                rem.remove(i);
            },
        }
        assert(texts(diffs@) =~= storage_pass(ev.take(j + 1), t0).0);
        assert(pick(av, rem@) =~= storage_pass(ev.take(j + 1), t0).1);
        j = j + 1;
    }
    assert(ev.take(expected@.len() as int) =~= ev);
    (diffs, rem)
}

/// The differences between the actual and the expected storage devices.
fn storage_differences(actual: &Vec<SkuComponentStorage>, expected: &Vec<SkuComponentStorage>) -> (r: Vec<String>)
    ensures
        texts(r@) == storage_diffs(storage_views(actual@), storage_views(expected@)),
{
    let table = storage_table_exec(actual);
    let (mut diffs, rem) = storage_pass_exec(expected, actual, table);
    let ghost d0 = texts(diffs@);
    let ghost av = storage_views(actual@);
    let mut j: usize = 0;
    while j < rem.len()
        invariant
            j <= rem@.len(),
            av == storage_views(actual@),
            in_range(rem@, actual@.len()),
            texts(diffs@) == d0 + unexpected_storage_msgs(pick(av, rem@).take(j as int)),
        decreases rem@.len() - j,
    {
        let k = rem[j];
        assert(k < actual@.len());
        let m = unexpected_storage_message(&actual[k]);
        let ghost before = diffs@;
        diffs.push(m);
        assert(texts(diffs@) =~= texts(before).push(m@));
        assert(pick(av, rem@)[j as int] == actual@[k as int]@);
        assert(unexpected_storage_msgs(pick(av, rem@).take(j + 1)) =~= unexpected_storage_msgs(
            pick(av, rem@).take(j as int),
        ).push(msg_unexpected_storage(actual@[k as int]@)));
        assert(texts(diffs@) =~= d0 + unexpected_storage_msgs(pick(av, rem@).take(j + 1)));
        j = j + 1;
    }
    assert(pick(av, rem@).take(rem@.len() as int) =~= pick(av, rem@));
    diffs
}

/// The sockets of all the CPUs of `cs`.
fn cpu_count_exec(cs: &Vec<SkuComponentCpu>) -> (r: u32)
    requires
        cpu_count_sum(cpu_views(cs@)) <= u32::MAX,
    ensures
        r == cpu_count_sum(cpu_views(cs@)),
{
    let ghost v = cpu_views(cs@);
    let mut sum: u32 = 0;
    let mut i: usize = 0;
    while i < cs.len()
        invariant
            i <= cs@.len(),
            v == cpu_views(cs@),
            total(v, sockets()) <= u32::MAX,
            sum == total(v.take(i as int), sockets()),
        decreases cs@.len() - i,
    {
        assert(v.take(i + 1).drop_last() =~= v.take(i as int));
        proof {
            lemma_total_prefix(v, sockets(), i + 1);
        }
        sum = sum + cs[i].count;
        i = i + 1;
    }
    assert(v.take(cs@.len() as int) =~= v);
    sum
}

/// The threads of all the CPUs of `cs`.
fn cpu_thread_exec(cs: &Vec<SkuComponentCpu>) -> (r: u32)
    requires
        cpu_thread_sum(cpu_views(cs@)) <= u32::MAX,
    ensures
        r == cpu_thread_sum(cpu_views(cs@)),
{
    let ghost v = cpu_views(cs@);
    let mut sum: u32 = 0;
    let mut i: usize = 0;
    while i < cs.len()
        invariant
            i <= cs@.len(),
            v == cpu_views(cs@),
            total(v, threads()) <= u32::MAX,
            sum == total(v.take(i as int), threads()),
        decreases cs@.len() - i,
    {
        assert(v.take(i + 1).drop_last() =~= v.take(i as int));
        proof {
            lemma_total_prefix(v, threads(), i + 1);
        }
        sum = sum + cs[i].thread_count;
        i = i + 1;
    }
    assert(v.take(cs@.len() as int) =~= v);
    sum
}

/// The total memory of `ms`, in MB.
fn memory_total_exec(ms: &Vec<SkuComponentMemory>) -> (r: u32)
    requires
        memory_total(memory_views(ms@)) <= u32::MAX,
    ensures
        r == memory_total(memory_views(ms@)),
{
    let ghost v = memory_views(ms@);
    let mut sum: u32 = 0;
    let mut i: usize = 0;
    while i < ms.len()
        invariant
            i <= ms@.len(),
            v == memory_views(ms@),
            total(v, megabytes()) <= u32::MAX,
            sum == total(v.take(i as int), megabytes()),
        decreases ms@.len() - i,
    {
        assert(v.take(i + 1).drop_last() =~= v.take(i as int));
        proof {
            lemma_total_prefix(v, megabytes(), i + 1);
        }
        let m = &ms[i];
        assert((m.capacity_mb as nat) * (m.count as nat) <= u32::MAX);
        let p = m.capacity_mb * m.count;
        sum = sum + p;
        i = i + 1;
    }
    assert(v.take(ms@.len() as int) =~= v);
    sum
}

fn chassis_model_message(a: &str, e: &str) -> (r: String)
    ensures
        r@ == msg_chassis_model(a@, e@),
{
    let mut s = String::from_str("Actual chassis model \"");
    push_str(&mut s, a);
    push_str(&mut s, "\" does not match expected \"");
    push_str(&mut s, e);
    push_str(&mut s, "\"");
    assert(s@ =~= msg_chassis_model(a@, e@));
    s
}

fn chassis_architecture_message(a: &str, e: &str) -> (r: String)
    ensures
        r@ == msg_chassis_architecture(a@, e@),
{
    let mut s = String::from_str("Actual chassis architecture \"");
    push_str(&mut s, a);
    push_str(&mut s, "\" does not match expected \"");
    push_str(&mut s, e);
    push_str(&mut s, "\"");
    assert(s@ =~= msg_chassis_architecture(a@, e@));
    s
}

/// A message of the form `<head><a><middle><b>)`.
fn two_numbers_message(head: &str, a: u32, middle: &str, b: u32) -> (r: String)
    ensures
        r@ == head@ + decimal(a as nat) + middle@ + decimal(b as nat) + ")"@,
{
    let mut s = String::from_str(head);
    push_decimal(&mut s, a as u64);
    push_str(&mut s, middle);
    push_decimal(&mut s, b as u64);
    push_str(&mut s, ")");
    s
}

fn tpm_differences(a: &Option<SkuComponentTpm>, e: &Option<SkuComponentTpm>) -> (r: Vec<String>)
    ensures
        texts(r@) == tpm_diffs(
            match a {
                Some(t) => Some(t@),
                None => None,
            },
            match e {
                Some(t) => Some(t@),
                None => None,
            },
        ),
{
    let mut diffs: Vec<String> = Vec::new();
    match (a, e) {
        (None, None) => {},
        (None, Some(et)) => {
            let mut s = String::from_str("Missing a TPM module: version: ");
            push_str(&mut s, et.version.as_str());
            diffs.push(s);
        },
        (Some(at), None) => {
            let mut s = String::from_str("Found unexpected TPM config: version: ");
            push_str(&mut s, at.version.as_str());
            diffs.push(s);
        },
        (Some(at), Some(et)) => {
            if !str_eq(at.version.as_str(), et.version.as_str()) {
                let mut s = String::from_str("Expected TPM version (");
                push_str(&mut s, et.version.as_str());
                push_str(&mut s, ") does not match actual (");
                push_str(&mut s, at.version.as_str());
                push_str(&mut s, ")");
                diffs.push(s);
            }
        },
    }
    assert(texts(diffs@) =~= tpm_diffs(
        match a {
            Some(t) => Some(t@),
            None => None,
        },
        match e {
            Some(t) => Some(t@),
            None => None,
        },
    ));
    diffs
}

/// Appends `part` to `diffs`.
fn append_texts(diffs: &mut Vec<String>, part: Vec<String>)
    ensures
        texts(final(diffs)@) == texts(old(diffs)@) + texts(part@),
{
    let ghost p0 = part@;
    let mut part = part;
    diffs.append(&mut part);
    assert(texts(diffs@) =~= texts(old(diffs)@) + texts(p0));
}

/// Appends `msg` to `diffs` when `cond` holds.
fn push_when(diffs: &mut Vec<String>, cond: bool, msg: String)
    ensures
        texts(final(diffs)@) == texts(old(diffs)@) + when(cond, msg@),
{
    let ghost before = diffs@;
    if cond {
        diffs.push(msg);
    }
    assert(texts(diffs@) =~= texts(before) + when(cond, msg@));
}

/// The differences of an actual SKU from an expected one, as messages, in the order that
/// `sku_diffs` gives. Which SKU is which matters: the roles of the two are not symmetric.
pub fn diff_skus(actual_sku: &Sku, expected_sku: &Sku) -> (diffs: Vec<String>)
    requires
        totals_fit(actual_sku.components@),
        totals_fit(expected_sku.components@),
    ensures
        texts(diffs@) == sku_diffs(actual_sku.components@, expected_sku.components@),
{
    let a = &actual_sku.components;
    let e = &expected_sku.components;
    let mut diffs: Vec<String> = Vec::new();
    assert(texts(diffs@) =~= Seq::<Seq<char>>::empty());

    let same_model = str_eq(a.chassis.model.as_str(), e.chassis.model.as_str());
    let m = chassis_model_message(a.chassis.model.as_str(), e.chassis.model.as_str());
    push_when(&mut diffs, !same_model, m);

    let same_arch = str_eq(a.chassis.architecture.as_str(), e.chassis.architecture.as_str());
    let m = chassis_architecture_message(a.chassis.architecture.as_str(), e.chassis.architecture.as_str());
    push_when(&mut diffs, !same_arch, m);

    let expected_cpu_count = cpu_count_exec(&e.cpus);
    let actual_cpu_count = cpu_count_exec(&a.cpus);
    let m = two_numbers_message("Number of CPUs (", actual_cpu_count, ") does not match expected (", expected_cpu_count);
    assert(m@ =~= msg_cpu_count(actual_cpu_count as nat, expected_cpu_count as nat));
    push_when(&mut diffs, expected_cpu_count != actual_cpu_count, m);

    let expected_thread_count = cpu_thread_exec(&e.cpus);
    let actual_thread_count = cpu_thread_exec(&a.cpus);
    let m = two_numbers_message(
        "Number of CPU threads (",
        actual_thread_count,
        ") does not match expected (",
        expected_thread_count,
    );
    assert(m@ =~= msg_cpu_threads(actual_thread_count as nat, expected_thread_count as nat));
    push_when(&mut diffs, expected_thread_count != actual_thread_count, m);

    append_texts(&mut diffs, gpu_differences(&a.gpus, &e.gpus));
    append_texts(&mut diffs, ib_differences(&a.infiniband_devices, &e.infiniband_devices));

    let actual_total_memory = memory_total_exec(&a.memory);
    let expected_total_memory = memory_total_exec(&e.memory);
    let m = two_numbers_message("Actual memory (", actual_total_memory, ") differs from expected (", expected_total_memory);
    assert(m@ =~= msg_memory(actual_total_memory as nat, expected_total_memory as nat));
    push_when(&mut diffs, expected_total_memory != actual_total_memory, m);

    append_texts(&mut diffs, storage_differences(&a.storage, &e.storage));
    append_texts(&mut diffs, tpm_differences(&a.tpm, &e.tpm));
    assert(texts(diffs@) =~= sku_diffs(a@, e@));
    diffs
}

// ---------------------------------------------------------------------------
// Laws
// ---------------------------------------------------------------------------

/// Whether no two GPUs share a model.
pub open spec fn unique_gpu_models(gs: Seq<GpuView>) -> bool {
    forall|i: int, j: int| 0 <= i < j < gs.len() ==> gs[i].model != gs[j].model
}

/// Whether no two InfiniBand entries share a vendor and model.
pub open spec fn unique_ib_keys(ds: Seq<IbView>) -> bool {
    forall|i: int, j: int| 0 <= i < j < ds.len() ==> ib_key(ds[i]) != ib_key(ds[j])
}

/// Whether no two storage entries share a model.
pub open spec fn unique_storage_models(ss: Seq<StorageView>) -> bool {
    forall|i: int, j: int| 0 <= i < j < ss.len() ==> ss[i].model != ss[j].model
}

proof fn lemma_gpu_table_unique(gs: Seq<GpuView>)
    requires
        unique_gpu_models(gs),
    ensures
        gpu_table(gs) == gs,
    decreases gs.len(),
{
    if gs.len() > 0 {
        let p = gs.drop_last();
        lemma_gpu_table_unique(p);
        let keys = p.map_values(|g: GpuView| gpu_key(g));
        assert forall|j: int| 0 <= j < keys.len() implies keys[j] != gpu_key(gs.last()) by {
            assert(p[j] == gs[j]);
        }
        lemma_first_index_none(keys, gpu_key(gs.last()));
        assert(p.push(gs.last()) =~= gs);
    }
}

proof fn lemma_gpu_pass_self(gs: Seq<GpuView>, k: int)
    requires
        unique_gpu_models(gs),
        0 <= k <= gs.len(),
    ensures
        gpu_pass(gs.take(k), gs) == (Seq::<Seq<char>>::empty(), gs.skip(k)),
    decreases k,
{
    if k > 0 {
        lemma_gpu_pass_self(gs, k - 1);
        assert(gs.take(k).drop_last() =~= gs.take(k - 1));
        let rem = gs.skip(k - 1);
        let a = gs[k - 1];
        assert(rem[0] == a);
        lemma_first_index_at(rem.map_values(|g: GpuView| gpu_key(g)), gpu_key(a), 0);
        assert(rem.remove(0) =~= gs.skip(k));
        assert(Seq::<Seq<char>>::empty() + when(false, msg_gpu_count(a, a)) =~= Seq::<Seq<char>>::empty());
    } else {
        assert(gs.take(0) =~= Seq::<GpuView>::empty());
        assert(gs.skip(0) =~= gs);
    }
}

proof fn lemma_ib_table_unique(ds: Seq<IbView>)
    requires
        unique_ib_keys(ds),
    ensures
        ib_table(ds) == ds,
    decreases ds.len(),
{
    if ds.len() > 0 {
        let p = ds.drop_last();
        lemma_ib_table_unique(p);
        let keys = p.map_values(|d: IbView| ib_key(d));
        assert forall|j: int| 0 <= j < keys.len() implies keys[j] != ib_key(ds.last()) by {
            assert(p[j] == ds[j]);
        }
        lemma_first_index_none(keys, ib_key(ds.last()));
        assert(p.push(ds.last()) =~= ds);
    }
}

proof fn lemma_ib_pass_self(ds: Seq<IbView>, k: int)
    requires
        unique_ib_keys(ds),
        0 <= k <= ds.len(),
    ensures
        ib_pass(ds.take(k), ds) == (Seq::<Seq<char>>::empty(), ds.skip(k)),
    decreases k,
{
    if k > 0 {
        lemma_ib_pass_self(ds, k - 1);
        assert(ds.take(k).drop_last() =~= ds.take(k - 1));
        let rem = ds.skip(k - 1);
        let a = ds[k - 1];
        assert(rem[0] == a);
        lemma_first_index_at(rem.map_values(|x: IbView| ib_key(x)), ib_key(a), 0);
        assert(rem.remove(0) =~= ds.skip(k));
        assert(Seq::<Seq<char>>::empty() + when(false, msg_ib_mismatch(a, a)) =~= Seq::<Seq<char>>::empty());
    } else {
        assert(ds.take(0) =~= Seq::<IbView>::empty());
        assert(ds.skip(0) =~= ds);
    }
}

proof fn lemma_storage_table_unique(ss: Seq<StorageView>)
    requires
        unique_storage_models(ss),
    ensures
        storage_table(ss) == ss,
    decreases ss.len(),
{
    if ss.len() > 0 {
        let p = ss.drop_last();
        lemma_storage_table_unique(p);
        let keys = p.map_values(|x: StorageView| storage_key(x));
        assert forall|j: int| 0 <= j < keys.len() implies keys[j] != storage_key(ss.last()) by {
            assert(p[j] == ss[j]);
        }
        lemma_first_index_none(keys, storage_key(ss.last()));
        assert(p.push(ss.last()) =~= ss);
    }
}

proof fn lemma_storage_pass_self(ss: Seq<StorageView>, k: int)
    requires
        unique_storage_models(ss),
        0 <= k <= ss.len(),
    ensures
        storage_pass(ss.take(k), ss) == (Seq::<Seq<char>>::empty(), ss.skip(k)),
    decreases k,
{
    if k > 0 {
        lemma_storage_pass_self(ss, k - 1);
        assert(ss.take(k).drop_last() =~= ss.take(k - 1));
        let rem = ss.skip(k - 1);
        let e = ss[k - 1];
        assert(rem[0] == e);
        lemma_first_index_at(rem.map_values(|x: StorageView| storage_key(x)), storage_key(e), 0);
        assert(rem.remove(0) =~= ss.skip(k));
        assert(Seq::<Seq<char>>::empty() + when(false, msg_storage_count(e, e)) =~= Seq::<Seq<char>>::empty());
    } else {
        assert(ss.take(0) =~= Seq::<StorageView>::empty());
        assert(ss.skip(0) =~= ss);
    }
}

/// A SKU compared with itself has no differences, as long as no two of its GPUs, no two of
/// its InfiniBand entries and no two of its storage entries share a key.
pub proof fn lemma_sku_matches_itself(c: ComponentsView)
    requires
        unique_gpu_models(c.gpus),
        unique_ib_keys(c.infiniband_devices),
        unique_storage_models(c.storage),
    ensures
        sku_diffs(c, c) == Seq::<Seq<char>>::empty(),
{
    lemma_gpu_table_unique(c.gpus);
    lemma_gpu_pass_self(c.gpus, c.gpus.len() as int);
    assert(c.gpus.take(c.gpus.len() as int) =~= c.gpus);
    assert(c.gpus.skip(c.gpus.len() as int) =~= Seq::<GpuView>::empty());
    assert(missing_gpu_msgs(Seq::<GpuView>::empty()) =~= Seq::<Seq<char>>::empty());
    lemma_ib_table_unique(c.infiniband_devices);
    lemma_ib_pass_self(c.infiniband_devices, c.infiniband_devices.len() as int);
    assert(c.infiniband_devices.take(c.infiniband_devices.len() as int) =~= c.infiniband_devices);
    assert(c.infiniband_devices.skip(c.infiniband_devices.len() as int) =~= Seq::<IbView>::empty());
    assert(missing_ib_msgs(Seq::<IbView>::empty()) =~= Seq::<Seq<char>>::empty());
    lemma_storage_table_unique(c.storage);
    lemma_storage_pass_self(c.storage, c.storage.len() as int);
    assert(c.storage.take(c.storage.len() as int) =~= c.storage);
    assert(c.storage.skip(c.storage.len() as int) =~= Seq::<StorageView>::empty());
    assert(unexpected_storage_msgs(Seq::<StorageView>::empty()) =~= Seq::<Seq<char>>::empty());
    assert(tpm_diffs(c.tpm, c.tpm) =~= Seq::<Seq<char>>::empty());
    assert(sku_diffs(c, c) =~= Seq::<Seq<char>>::empty());
}

/// Whether two SKUs agree in everything that a comparison as the actual SKU reads: chassis
/// model and architecture, the CPU socket and thread totals, the model and count of each
/// GPU in turn, the memory total, the InfiniBand and storage devices, and the TPM version.
/// Vendors, CPU models, GPU memory sizes and memory types are not among them.
pub open spec fn same_compared_parts(a: ComponentsView, b: ComponentsView) -> bool {
    &&& a.chassis.model == b.chassis.model
    &&& a.chassis.architecture == b.chassis.architecture
    &&& cpu_count_sum(a.cpus) == cpu_count_sum(b.cpus)
    &&& cpu_thread_sum(a.cpus) == cpu_thread_sum(b.cpus)
    &&& a.gpus.len() == b.gpus.len()
    &&& forall|i: int| 0 <= i < a.gpus.len() ==> (#[trigger] a.gpus[i]).model == b.gpus[i].model
        && a.gpus[i].count == b.gpus[i].count
    &&& memory_total(a.memory) == memory_total(b.memory)
    &&& a.infiniband_devices == b.infiniband_devices
    &&& a.storage == b.storage
    &&& (a.tpm is Some) == (b.tpm is Some)
    &&& a.tpm is Some ==> a.tpm->0.version == b.tpm->0.version
}

proof fn lemma_gpu_pass_same_models(a: Seq<GpuView>, b: Seq<GpuView>, t: Seq<GpuView>)
    requires
        a.len() == b.len(),
        forall|i: int| 0 <= i < a.len() ==> (#[trigger] a[i]).model == b[i].model && a[i].count == b[i].count,
    ensures
        gpu_pass(a, t).1 == gpu_pass(b, t).1,
        gpu_pass(a, t).0.len() == gpu_pass(b, t).0.len(),
    decreases a.len(),
{
    if a.len() > 0 {
        let a1 = a.drop_last();
        let b1 = b.drop_last();
        assert forall|i: int| 0 <= i < a1.len() implies (#[trigger] a1[i]).model == b1[i].model && a1[i].count == b1[i].count by {
            assert(a1[i] == a[i] && b1[i] == b[i]);
        }
        lemma_gpu_pass_same_models(a1, b1, t);
        let k = a.len() - 1;
        assert(a[k].model == b[k].model && a[k].count == b[k].count);
        assert(gpu_key(a.last()) == gpu_key(b.last()));
    }
}

/// Vendors, CPU models, GPU memory sizes, memory types and the TPM vendor of the actual SKU
/// are not compared: changing them leaves the number of differences as it was.
pub proof fn lemma_uncompared_parts_ignored(a: ComponentsView, a2: ComponentsView, e: ComponentsView)
    requires
        same_compared_parts(a, a2),
    ensures
        sku_diffs(a2, e).len() == sku_diffs(a, e).len(),
{
    lemma_gpu_pass_same_models(a.gpus, a2.gpus, gpu_table(e.gpus));
    assert(gpu_diffs(a2.gpus, e.gpus).len() == gpu_diffs(a.gpus, e.gpus).len());
    assert(tpm_diffs(a2.tpm, e.tpm).len() == tpm_diffs(a.tpm, e.tpm).len());
}

proof fn lemma_contains_in_left(s: Seq<Seq<char>>, t: Seq<Seq<char>>, x: Seq<char>)
    requires
        s.contains(x),
    ensures
        (s + t).contains(x),
{
    let i = choose|i: int| 0 <= i < s.len() && s[i] == x;
    assert((s + t)[i] == x);
}

proof fn lemma_contains_in_right(s: Seq<Seq<char>>, t: Seq<Seq<char>>, x: Seq<char>)
    requires
        t.contains(x),
    ensures
        (s + t).contains(x),
{
    let i = choose|i: int| 0 <= i < t.len() && t[i] == x;
    assert((s + t)[s.len() + i] == x);
}

/// Every difference in the chassis, the CPU totals or the memory total is reported, each with
/// the actual value first and the expected one second; and two SKUs have no differences only
/// where their chassis models and architectures, CPU socket and thread totals, memory totals
/// and TPM versions all agree, and where both or neither have a TPM.
pub proof fn lemma_differences_reported(a: ComponentsView, e: ComponentsView)
    ensures
        a.chassis.model != e.chassis.model ==> sku_diffs(a, e).contains(
            "Actual chassis model \""@ + a.chassis.model + "\" does not match expected \""@ + e.chassis.model + "\""@,
        ),
        a.chassis.architecture != e.chassis.architecture ==> sku_diffs(a, e).contains(
            "Actual chassis architecture \""@ + a.chassis.architecture + "\" does not match expected \""@
                + e.chassis.architecture + "\""@,
        ),
        cpu_count_sum(a.cpus) != cpu_count_sum(e.cpus) ==> sku_diffs(a, e).contains(
            "Number of CPUs ("@ + decimal(cpu_count_sum(a.cpus)) + ") does not match expected ("@ + decimal(
                cpu_count_sum(e.cpus),
            ) + ")"@,
        ),
        cpu_thread_sum(a.cpus) != cpu_thread_sum(e.cpus) ==> sku_diffs(a, e).contains(
            "Number of CPU threads ("@ + decimal(cpu_thread_sum(a.cpus)) + ") does not match expected ("@ + decimal(
                cpu_thread_sum(e.cpus),
            ) + ")"@,
        ),
        memory_total(a.memory) != memory_total(e.memory) ==> sku_diffs(a, e).contains(
            "Actual memory ("@ + decimal(memory_total(a.memory)) + ") differs from expected ("@ + decimal(
                memory_total(e.memory),
            ) + ")"@,
        ),
        sku_diffs(a, e).len() == 0 ==> {
            &&& a.chassis.model == e.chassis.model
            &&& a.chassis.architecture == e.chassis.architecture
            &&& cpu_count_sum(a.cpus) == cpu_count_sum(e.cpus)
            &&& cpu_thread_sum(a.cpus) == cpu_thread_sum(e.cpus)
            &&& memory_total(a.memory) == memory_total(e.memory)
            &&& (a.tpm is Some) == (e.tpm is Some)
            &&& a.tpm is Some ==> a.tpm->0.version == e.tpm->0.version
        },
{
    let t1 = when(a.chassis.model != e.chassis.model, msg_chassis_model(a.chassis.model, e.chassis.model));
    let t2 = when(
        a.chassis.architecture != e.chassis.architecture,
        msg_chassis_architecture(a.chassis.architecture, e.chassis.architecture),
    );
    let t3 = when(cpu_count_sum(e.cpus) != cpu_count_sum(a.cpus), msg_cpu_count(cpu_count_sum(a.cpus), cpu_count_sum(e.cpus)));
    let t4 = when(
        cpu_thread_sum(e.cpus) != cpu_thread_sum(a.cpus),
        msg_cpu_threads(cpu_thread_sum(a.cpus), cpu_thread_sum(e.cpus)),
    );
    let t5 = gpu_diffs(a.gpus, e.gpus);
    let t6 = ib_diffs(a.infiniband_devices, e.infiniband_devices);
    let t7 = when(memory_total(e.memory) != memory_total(a.memory), msg_memory(memory_total(a.memory), memory_total(e.memory)));
    let t8 = storage_diffs(a.storage, e.storage);
    let t9 = tpm_diffs(a.tpm, e.tpm);
    let d = sku_diffs(a, e);
    assert(d == t1 + t2 + t3 + t4 + t5 + t6 + t7 + t8 + t9);
    if a.chassis.model != e.chassis.model {
        let x = msg_chassis_model(a.chassis.model, e.chassis.model);
        assert(t1[0] == x);
        lemma_contains_in_left(t1, t2, x);
        lemma_contains_in_left(t1 + t2, t3, x);
        lemma_contains_in_left(t1 + t2 + t3, t4, x);
        lemma_contains_in_left(t1 + t2 + t3 + t4, t5, x);
        lemma_contains_in_left(t1 + t2 + t3 + t4 + t5, t6, x);
        lemma_contains_in_left(t1 + t2 + t3 + t4 + t5 + t6, t7, x);
        lemma_contains_in_left(t1 + t2 + t3 + t4 + t5 + t6 + t7, t8, x);
        lemma_contains_in_left(t1 + t2 + t3 + t4 + t5 + t6 + t7 + t8, t9, x);
    }
    if a.chassis.architecture != e.chassis.architecture {
        let x = msg_chassis_architecture(a.chassis.architecture, e.chassis.architecture);
        assert(t2[0] == x);
        lemma_contains_in_right(t1, t2, x);
        lemma_contains_in_left(t1 + t2, t3, x);
        lemma_contains_in_left(t1 + t2 + t3, t4, x);
        lemma_contains_in_left(t1 + t2 + t3 + t4, t5, x);
        lemma_contains_in_left(t1 + t2 + t3 + t4 + t5, t6, x);
        lemma_contains_in_left(t1 + t2 + t3 + t4 + t5 + t6, t7, x);
        lemma_contains_in_left(t1 + t2 + t3 + t4 + t5 + t6 + t7, t8, x);
        lemma_contains_in_left(t1 + t2 + t3 + t4 + t5 + t6 + t7 + t8, t9, x);
    }
    if cpu_count_sum(a.cpus) != cpu_count_sum(e.cpus) {
        let x = msg_cpu_count(cpu_count_sum(a.cpus), cpu_count_sum(e.cpus));
        assert(t3[0] == x);
        lemma_contains_in_right(t1 + t2, t3, x);
        lemma_contains_in_left(t1 + t2 + t3, t4, x);
        lemma_contains_in_left(t1 + t2 + t3 + t4, t5, x);
        lemma_contains_in_left(t1 + t2 + t3 + t4 + t5, t6, x);
        lemma_contains_in_left(t1 + t2 + t3 + t4 + t5 + t6, t7, x);
        lemma_contains_in_left(t1 + t2 + t3 + t4 + t5 + t6 + t7, t8, x);
        lemma_contains_in_left(t1 + t2 + t3 + t4 + t5 + t6 + t7 + t8, t9, x);
    }
    if cpu_thread_sum(a.cpus) != cpu_thread_sum(e.cpus) {
        let x = msg_cpu_threads(cpu_thread_sum(a.cpus), cpu_thread_sum(e.cpus));
        assert(t4[0] == x);
        lemma_contains_in_right(t1 + t2 + t3, t4, x);
        lemma_contains_in_left(t1 + t2 + t3 + t4, t5, x);
        lemma_contains_in_left(t1 + t2 + t3 + t4 + t5, t6, x);
        lemma_contains_in_left(t1 + t2 + t3 + t4 + t5 + t6, t7, x);
        lemma_contains_in_left(t1 + t2 + t3 + t4 + t5 + t6 + t7, t8, x);
        lemma_contains_in_left(t1 + t2 + t3 + t4 + t5 + t6 + t7 + t8, t9, x);
    }
    if memory_total(a.memory) != memory_total(e.memory) {
        let x = msg_memory(memory_total(a.memory), memory_total(e.memory));
        assert(t7[0] == x);
        lemma_contains_in_right(t1 + t2 + t3 + t4 + t5 + t6, t7, x);
        lemma_contains_in_left(t1 + t2 + t3 + t4 + t5 + t6 + t7, t8, x);
        lemma_contains_in_left(t1 + t2 + t3 + t4 + t5 + t6 + t7 + t8, t9, x);
    }
    if d.len() == 0 {
        assert(t1.len() == 0 && t2.len() == 0 && t3.len() == 0 && t4.len() == 0 && t7.len() == 0 && t9.len() == 0);
    }
}

/// A TPM that is expected and missing, one that is present and not expected, and two TPMs
/// with different versions are each reported, the last with the expected version first.
pub proof fn lemma_tpm_differences_reported(a: ComponentsView, e: ComponentsView)
    ensures
        (a.tpm is None && e.tpm is Some) ==> sku_diffs(a, e).contains(
            "Missing a TPM module: version: "@ + e.tpm->0.version,
        ),
        (a.tpm is Some && e.tpm is None) ==> sku_diffs(a, e).contains(
            "Found unexpected TPM config: version: "@ + a.tpm->0.version,
        ),
        (a.tpm is Some && e.tpm is Some && a.tpm->0.version != e.tpm->0.version) ==> sku_diffs(a, e).contains(
            "Expected TPM version ("@ + e.tpm->0.version + ") does not match actual ("@ + a.tpm->0.version + ")"@,
        ),
{
    let t9 = tpm_diffs(a.tpm, e.tpm);
    let pre = when(a.chassis.model != e.chassis.model, msg_chassis_model(a.chassis.model, e.chassis.model))
        + when(
        a.chassis.architecture != e.chassis.architecture,
        msg_chassis_architecture(a.chassis.architecture, e.chassis.architecture),
    ) + when(cpu_count_sum(e.cpus) != cpu_count_sum(a.cpus), msg_cpu_count(cpu_count_sum(a.cpus), cpu_count_sum(e.cpus)))
        + when(
        cpu_thread_sum(e.cpus) != cpu_thread_sum(a.cpus),
        msg_cpu_threads(cpu_thread_sum(a.cpus), cpu_thread_sum(e.cpus)),
    ) + gpu_diffs(a.gpus, e.gpus) + ib_diffs(a.infiniband_devices, e.infiniband_devices) + when(
        memory_total(e.memory) != memory_total(a.memory),
        msg_memory(memory_total(a.memory), memory_total(e.memory)),
    ) + storage_diffs(a.storage, e.storage);
    assert(sku_diffs(a, e) == pre + t9);
    if t9.len() > 0 {
        lemma_contains_in_right(pre, t9, t9[0]);
    }
}

} // verus!
