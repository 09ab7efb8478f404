//! Which architecture the kernels are compiled for, and where their headers are looked for.
use crate::text::{self, has_prefix, same_text};
use vstd::prelude::*;

verus! {

/// The compiler architecture for a compute capability such as `12.0`.
pub open spec fn arch_for_capability(capability: Seq<char>) -> &'static str {
    if text::begins(capability, "12."@) {
        "compute_120a"
    } else if text::begins(capability, "10."@) {
        "compute_100"
    } else if text::begins(capability, "9."@) {
        "compute_90"
    } else if capability == "8.9"@ {
        "compute_89"
    } else {
        "compute_80"
    }
}

/// The compute capability of the first GPU listed with this index, if the
/// inventory knows one.
pub open spec fn reported_capability(
    inventory: Seq<GpuInfo>,
    device_index: usize,
) -> Option<Seq<char>>
    decreases inventory.len(),
{
    if inventory.len() == 0 {
        None
    } else if inventory[0].index == device_index {
        match inventory[0].compute_capability {
            Some(text) => Some(text@),
            None => None,
        }
    } else {
        reported_capability(inventory.skip(1), device_index)
    }
}

/// Generation of a GPU.
#[derive(Clone, Copy, Debug, PartialEq, Eq, Structural)]
pub enum GpuArchitecture {
    Blackwell,
    /// Any other generation.
    Earlier,
}

/// One GPU of the hardware inventory.
pub struct GpuInfo {
    pub index: usize,
    pub architecture: GpuArchitecture,
    pub compute_capability: Option<String>,
}

/// The compute capability of a device, as the hardware inventory reports it.
pub fn capability_of_device(inventory: &Vec<GpuInfo>, device_index: usize) -> (capability: Option<String>)
    ensures
        match capability {
            Some(text) => reported_capability(inventory@, device_index) == Some(text@),
            None => reported_capability(inventory@, device_index) is None,
        },
{
    let mut i: usize = 0;
    assert(inventory@.skip(0) =~= inventory@);
    while i < inventory.len()
        invariant
            i <= inventory@.len(),
            reported_capability(inventory@, device_index) == reported_capability(
                inventory@.skip(i as int),
                device_index,
            ),
        decreases inventory@.len() - i,
    {
        if inventory[i].index == device_index {
            return match &inventory[i].compute_capability {
                Some(text) => Some(text.clone()),
                None => None,
            };
        }
        assert(inventory@.skip(i as int).skip(1) =~= inventory@.skip(i + 1));
        i = i + 1;
    }
    None
}

/// The compiler architecture for a device; devices that report no compute
/// capability get the oldest one that is supported.
pub fn nvrtc_arch_for_device(inventory: &Vec<GpuInfo>, device_index: usize) -> (arch: &'static str)
    ensures
        arch == arch_for_capability(
            match reported_capability(inventory@, device_index) {
                Some(text) => text,
                None => Seq::empty(),
            },
        ),
{
    let text: String = match capability_of_device(inventory, device_index) {
        Some(text) => text,
        None => String::new(),
    };
    let capability: &str = text.as_str();
    if has_prefix(capability, "12.") {
        "compute_120a"
    } else if has_prefix(capability, "10.") {
        "compute_100"
    } else if has_prefix(capability, "9.") {
        "compute_90"
    } else if same_text(capability, "8.9") {
        "compute_89"
    } else {
        "compute_80"
    }
}

/// The characters of each text.
pub open spec fn shown(texts: Seq<String>) -> Seq<Seq<char>> {
    texts.map_values(|text: String| text@)
}

/// The characters of each literal.
pub open spec fn spelled(texts: Seq<&'static str>) -> Seq<Seq<char>> {
    texts.map_values(|text: &'static str| text@)
}

/// One directory after another, each followed by every suffix in turn.
pub open spec fn under(roots: Seq<Seq<char>>, suffixes: Seq<Seq<char>>) -> Seq<Seq<char>>
    decreases roots.len(),
{
    if roots.len() == 0 {
        Seq::empty()
    } else {
        under(roots.drop_last(), suffixes) + suffixes.map_values(|suffix: Seq<char>| roots.last() + suffix)
    }
}

/// Where a toolkit keeps the headers that the kernels need.
pub open spec fn kernel_suffixes() -> Seq<&'static str> {
    seq![
        "/include",
        "/targets/x86_64-linux/include",
        "/targets/x86_64-linux/include/cccl",
    ]
}

/// Where the headers that the kernels need are looked for last.
pub open spec fn kernel_defaults() -> Seq<&'static str> {
    seq![
        "/opt/cuda/targets/x86_64-linux/include",
        "/opt/cuda/targets/x86_64-linux/include/cccl",
        "/usr/local/cuda/include",
        "/usr/local/cuda/targets/x86_64-linux/include/cccl",
        "/usr/include",
    ]
}

/// Where a toolkit keeps the headers that the smoke kernels need.
pub open spec fn smoke_suffixes() -> Seq<&'static str> {
    seq!["/include", "/targets/x86_64-linux/include"]
}

/// Where the headers that the smoke kernels need are looked for last.
pub open spec fn smoke_defaults() -> Seq<&'static str> {
    seq!["/opt/cuda/include", "/opt/cuda/targets/x86_64-linux/include", "/usr/local/cuda/include"]
}

/// Every root followed by every suffix, and then the defaults.
fn directories(
    roots: &Vec<String>,
    suffixes: &Vec<&'static str>,
    defaults: &Vec<&'static str>,
) -> (paths: Vec<String>)
    ensures
        shown(paths@) =~= under(shown(roots@), spelled(suffixes@)) + spelled(defaults@),
{
    let mut paths: Vec<String> = Vec::new();
    let mut i: usize = 0;
    while i < roots.len()
        invariant
            i <= roots@.len(),
            shown(paths@) =~= under(shown(roots@).take(i as int), spelled(suffixes@)),
        decreases roots@.len() - i,
    {
        let ghost before = shown(paths@);
        let ghost tails = spelled(suffixes@).map_values(
            |suffix: Seq<char>| roots@[i as int]@ + suffix,
        );
        let mut j: usize = 0;
        while j < suffixes.len()
            invariant
                i < roots@.len(),
                j <= suffixes@.len(),
                tails == spelled(suffixes@).map_values(
                    |suffix: Seq<char>| roots@[i as int]@ + suffix,
                ),
                shown(paths@) =~= before + tails.take(j as int),
            decreases suffixes@.len() - j,
        {
            let ghost held = paths@;
            let path: String = roots[i].clone().concat(suffixes[j]);
            paths.push(path);
            assert(shown(paths@) =~= shown(held).push(tails[j as int]));
            assert(tails.take(j + 1) =~= tails.take(j as int).push(tails[j as int]));
            j = j + 1;
        }
        assert(tails.take(j as int) =~= tails);
        assert(shown(roots@).take(i + 1).drop_last() =~= shown(roots@).take(i as int));
        i = i + 1;
    }
    assert(shown(roots@).take(i as int) =~= shown(roots@));
    let ghost front = shown(paths@);
    let mut k: usize = 0;
    while k < defaults.len()
        invariant
            k <= defaults@.len(),
            shown(paths@) =~= front + spelled(defaults@).take(k as int),
        decreases defaults@.len() - k,
    {
        let ghost held = paths@;
        paths.push(defaults[k].to_owned());
        assert(shown(paths@) =~= shown(held).push(defaults@[k as int]@));
        assert(spelled(defaults@).take(k + 1) =~= spelled(defaults@).take(k as int).push(
            defaults@[k as int]@,
        ));
        k = k + 1;
    }
    assert(spelled(defaults@).take(k as int) =~= spelled(defaults@));
    paths
}

/// Where the headers of the kernels may be, given the toolkits that the environment names.
pub fn kernel_header_directories(roots: &Vec<String>) -> (paths: Vec<String>)
    ensures
        shown(paths@) =~= under(shown(roots@), spelled(kernel_suffixes())) + spelled(
            kernel_defaults(),
        ),
{
    let suffixes: Vec<&'static str> = vec![
        "/include",
        "/targets/x86_64-linux/include",
        "/targets/x86_64-linux/include/cccl",
    ];
    let defaults: Vec<&'static str> = vec![
        "/opt/cuda/targets/x86_64-linux/include",
        "/opt/cuda/targets/x86_64-linux/include/cccl",
        "/usr/local/cuda/include",
        "/usr/local/cuda/targets/x86_64-linux/include/cccl",
        "/usr/include",
    ];
    assert(suffixes@ =~= kernel_suffixes());
    assert(defaults@ =~= kernel_defaults());
    directories(roots, &suffixes, &defaults)
}

/// Where the headers of the smoke kernels may be, given the toolkits that the environment
/// names.
pub fn smoke_header_directories(roots: &Vec<String>) -> (paths: Vec<String>)
    ensures
        shown(paths@) =~= under(shown(roots@), spelled(smoke_suffixes())) + spelled(
            smoke_defaults(),
        ),
{
    let suffixes: Vec<&'static str> = vec!["/include", "/targets/x86_64-linux/include"];
    let defaults: Vec<&'static str> = vec![
        "/opt/cuda/include",
        "/opt/cuda/targets/x86_64-linux/include",
        "/usr/local/cuda/include",
    ];
    assert(suffixes@ =~= smoke_suffixes());
    assert(defaults@ =~= smoke_defaults());
    directories(roots, &suffixes, &defaults)
}

} // verus!
