//! Per-process configuration: which renderer and which options an executable
//! gets.

use vstd::prelude::*;
use vstd::string::StringExecFns;
use crate::types::Handle;

verus! {

/// The handle of a module that is loaded into the host.
#[derive(Debug, Clone, Copy, PartialEq, Eq, Structural)]
pub struct ModuleWrapper(pub Handle);

impl ModuleWrapper {
    /// The handle.
    pub fn get(&self) -> (handle: Handle)
        ensures
            handle == self.0,
    {
        self.0
    }
}

impl From<Handle> for ModuleWrapper {
    fn from(value: Handle) -> (wrapper: Self) {
        Self(value)
    }
}

impl vstd::std_specs::convert::FromSpecImpl<Handle> for ModuleWrapper {
    open spec fn obeys_from_spec() -> bool {
        true
    }

    open spec fn from_spec(value: Handle) -> Self {
        ModuleWrapper(value)
    }
}

/// Which graphics backend renders the overlay for a host process.
#[derive(Debug, Clone, Copy, PartialEq, Eq, Structural)]
pub enum RendererType {
    Direct3D11,
    Direct3D12,
}

/// Bit of `RegistryFlags`: the host's back buffer is sRGB, so the pixel shader
/// that converts from linear colour is used.
pub const USE_SRGB: u32 = 0x1;

/// All the bits that mean something in `RegistryFlags`.
pub const ALL_FLAGS: u32 = 0x1;

/// A set of per-process feature flags.
#[derive(Debug, Clone, Copy, PartialEq, Eq, Structural)]
pub struct RegistryFlags {
    bits: u32,
}

impl View for RegistryFlags {
    type V = u32;

    closed spec fn view(&self) -> u32 {
        self.bits
    }
}

impl RegistryFlags {
    /// No flag.
    pub fn empty() -> (flags: Self)
        ensures
            flags@ == 0,
    {
        Self { bits: 0 }
    }

    /// Every flag.
    pub fn all() -> (flags: Self)
        ensures
            flags@ == ALL_FLAGS,
    {
        Self { bits: ALL_FLAGS }
    }

    /// The flag `USE_SRGB` alone.
    pub fn use_srgb() -> (flags: Self)
        ensures
            flags@ == USE_SRGB,
    {
        Self { bits: USE_SRGB }
    }

    /// The flags as bits.
    pub fn bits(&self) -> (bits: u32)
        ensures
            bits == self@,
    {
        self.bits
    }

    /// The flags whose bits are set in `bits`.  Bits that mean nothing are
    /// dropped.
    pub fn from_bits_truncate(bits: u32) -> (flags: Self)
        ensures
            flags@ == bits & ALL_FLAGS,
    {
        Self { bits: bits & ALL_FLAGS }
    }

    /// The flags whose bits are set in `bits`, unless a bit is set that means
    /// nothing.
    pub fn from_bits(bits: u32) -> (flags: Option<Self>)
        ensures
            flags is Some <==> bits & !ALL_FLAGS == 0,
            flags matches Some(f) ==> f@ == bits,
    {
        if bits & !ALL_FLAGS == 0 {
            Some(Self { bits })
        } else {
            None
        }
    }

    /// Whether no flag is set.
    pub fn is_empty(&self) -> (r: bool)
        ensures
            r == (self@ == 0),
    {
        self.bits == 0
    }

    /// Whether every flag of `other` is set in `self`.
    pub fn contains(&self, other: RegistryFlags) -> (r: bool)
        ensures
            r == (self@ & other@ == other@),
    {
        self.bits & other.bits == other.bits
    }

    /// The flags that are set in `self` or in `other`.
    pub fn union(&self, other: RegistryFlags) -> (flags: Self)
        ensures
            flags@ == self@ | other@,
    {
        Self { bits: self.bits | other.bits }
    }
}

/// What the overlay does in one host executable.
#[derive(Debug, Clone, Copy)]
pub struct RegistryEntry<'a> {
    executable: &'a str,
    renderer: RendererType,
    io_config_flags_set: u32,
    flags: RegistryFlags,
}

/// A `RegistryEntry` as a mathematical value.
pub struct RegistryRow {
    pub executable: Seq<char>,
    pub renderer: RendererType,
    /// Bits of the GUI library's configuration flags to switch on.
    pub config_flags: u32,
    /// Bits of the `RegistryFlags`.
    pub flags: u32,
}

impl<'a> View for RegistryEntry<'a> {
    type V = RegistryRow;

    closed spec fn view(&self) -> RegistryRow {
        RegistryRow {
            executable: self.executable@,
            renderer: self.renderer,
            config_flags: self.io_config_flags_set,
            flags: self.flags@,
        }
    }
}

impl<'a> RegistryEntry<'a> {
    fn new(executable: &'a str, renderer: RendererType, io_config_flags_set: u32, flags: RegistryFlags) -> (entry:
        Self)
        ensures
            entry@ == (RegistryRow {
                executable: executable@,
                renderer,
                config_flags: io_config_flags_set,
                flags: flags@,
            }),
    {
        Self { executable, renderer, io_config_flags_set, flags }
    }

    /// The name of the executable.
    pub fn get_executable(&self) -> (name: &'a str)
        ensures
            name@ == self@.executable,
    {
        self.executable
    }

    /// The renderer to use.
    pub fn get_renderer(&self) -> (renderer: RendererType)
        ensures
            renderer == self@.renderer,
    {
        self.renderer
    }

    /// Bits of the GUI library's configuration flags to switch on.
    pub fn get_config_flags_to_set(&self) -> (bits: u32)
        ensures
            bits == self@.config_flags,
    {
        self.io_config_flags_set
    }

    /// The feature flags.
    pub fn get_flags(&self) -> (flags: RegistryFlags)
        ensures
            flags@ == self@.flags,
    {
        self.flags
    }
}

/// The executables that are known, in the order in which they are looked up.
pub open spec fn registry_by_exe_name() -> Seq<RegistryRow> {
    seq![
        RegistryRow {
            executable: "METAPHOR.exe"@,
            renderer: RendererType::Direct3D11,
            config_flags: 0,
            flags: USE_SRGB,
        },
        RegistryRow {
            executable: "P5R.exe"@,
            renderer: RendererType::Direct3D11,
            config_flags: 0,
            flags: 0,
        },
        RegistryRow {
            executable: "P3R.exe"@,
            renderer: RendererType::Direct3D12,
            config_flags: 0,
            flags: 0,
        },
        RegistryRow {
            executable: "SMT5V-Win64-Shipping.exe"@,
            renderer: RendererType::Direct3D12,
            config_flags: 0,
            flags: 0,
        },
    ]
}

/// What an executable that is not known gets.
pub open spec fn default_registry() -> RegistryRow {
    RegistryRow {
        executable: "P5R.exe"@,
        renderer: RendererType::Direct3D11,
        config_flags: 0,
        flags: 0,
    }
}

/// The first of `rows` that is for the executable `name`, or else `default`.
pub open spec fn find_row(rows: Seq<RegistryRow>, name: Seq<char>, default: RegistryRow) -> RegistryRow
    decreases rows.len(),
{
    if rows.len() == 0 {
        default
    } else if rows.first().executable == name {
        rows.first()
    } else {
        find_row(rows.drop_first(), name, default)
    }
}

/// The known executables.
fn registry_entries() -> (entries: Vec<RegistryEntry<'static>>)
    ensures
        entries@.map_values(|e: RegistryEntry<'static>| e@) == registry_by_exe_name(),
{
    let mut entries: Vec<RegistryEntry<'static>> = Vec::new();
    entries.push(
        RegistryEntry::new("METAPHOR.exe", RendererType::Direct3D11, 0, RegistryFlags::use_srgb()),
    );
    entries.push(RegistryEntry::new("P5R.exe", RendererType::Direct3D11, 0, RegistryFlags::empty()));
    entries.push(RegistryEntry::new("P3R.exe", RendererType::Direct3D12, 0, RegistryFlags::empty()));
    entries.push(
        RegistryEntry::new(
            "SMT5V-Win64-Shipping.exe",
            RendererType::Direct3D12,
            0,
            RegistryFlags::empty(),
        ),
    );
    entries
}

/// Whether two strings hold the same characters.
fn same_name(a: &str, b: &str) -> (same: bool)
    ensures
        same == (a@ == b@),
{
    let a = String::from_str(a);
    let b = String::from_str(b);
    a == b
}

/// The configuration for the executable `name`: that of the first known
/// executable of that name, and the default for any other name.
pub fn get_registry_entry(name: &str) -> (entry: RegistryEntry<'static>)
    ensures
        entry@ == find_row(registry_by_exe_name(), name@, default_registry()),
{
    let entries = registry_entries();
    let ghost rows = entries@.map_values(|e: RegistryEntry<'static>| e@);
    let mut i: usize = 0;
    assert(rows.skip(0) =~= rows);
    while i < entries.len()
        invariant
            i <= entries.len(),
            rows == entries@.map_values(|e: RegistryEntry<'static>| e@),
            rows == registry_by_exe_name(),
            find_row(rows, name@, default_registry()) == find_row(
                rows.skip(i as int),
                name@,
                default_registry(),
            ),
        decreases entries.len() - i,
    {
        let entry = entries[i];
        assert(rows.skip(i as int).drop_first() =~= rows.skip(i as int + 1));
        if same_name(entry.get_executable(), name) {
            return entry;
        }
        i = i + 1;
    }
    RegistryEntry::new("P5R.exe", RendererType::Direct3D11, 0, RegistryFlags::empty())
}

} // verus!
