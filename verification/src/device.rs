//! What a PCI function reports about itself, and which functions qualify for
//! provisioning.

use vstd::prelude::*;

verus! {

/// Vendor identifier of Intel.
pub const VENDOR_INTEL: u16 = 0x8086;

/// Base class of display controllers.
pub const CLASS_DISPLAY: u8 = 0x03;

/// Subclass of VGA-compatible display controllers.
pub const SUBCLASS_VGA_COMPATIBLE: u8 = 0x00;

/// Programming interface of a VGA controller.
pub const PROGIF_VGA_CONTROLLER: u8 = 0x00;

/// Configuration-space offset of the vendor identifier (two bytes).
pub const VENDOR_ID_OFFSET: u32 = 0x00;

/// Configuration-space offset of the class code (three bytes: programming
/// interface, subclass, base class).
pub const CLASS_CODE_OFFSET: u32 = 0x09;

/// The class code of a PCI function.
#[derive(Clone, Copy, Debug, PartialEq, Eq, Structural)]
pub struct ClassCode {
    pub class: u8,
    pub subclass: u8,
    pub prog_if: u8,
}

/// Where a PCI function sits.
#[derive(Clone, Copy, Debug, PartialEq, Eq, Structural)]
pub struct Location {
    pub segment: u64,
    pub bus: u64,
    pub device: u64,
    pub function: u64,
}

/// The vendor identifier held in the two bytes at `VENDOR_ID_OFFSET`, which
/// store it least significant byte first.
pub open spec fn vendor_of(bytes: Seq<u8>) -> int {
    bytes[0] + bytes[1] * 0x100
}

/// The class code held in the three bytes at `CLASS_CODE_OFFSET`.
pub open spec fn class_of(bytes: Seq<u8>) -> ClassCode {
    ClassCode { class: bytes[2], subclass: bytes[1], prog_if: bytes[0] }
}

/// Whether vendor and class code are those of an Intel VGA-compatible
/// display controller.
pub open spec fn is_intel_display(vendor: int, class: ClassCode) -> bool {
    &&& vendor == VENDOR_INTEL
    &&& class.class == CLASS_DISPLAY
    &&& class.subclass == SUBCLASS_VGA_COMPATIBLE
    &&& class.prog_if == PROGIF_VGA_CONTROLLER
}

/// Whether `location` is segment 0, bus 0, device 2, function 0: the slot of
/// the integrated graphics controller.
pub open spec fn is_graphics_slot(location: Location) -> bool {
    &&& location.segment == 0
    &&& location.bus == 0
    &&& location.device == 2
    &&& location.function == 0
}

/// Decodes the vendor identifier from its configuration-space bytes.
pub fn vendor_id(bytes: [u8; 2]) -> (vendor: u16)
    ensures
        vendor == vendor_of(bytes@),
{
    bytes[0] as u16 + bytes[1] as u16 * 0x100
}

/// Decodes the class code from its configuration-space bytes.
pub fn class_code(bytes: [u8; 3]) -> (class: ClassCode)
    ensures
        class == class_of(bytes@),
{
    ClassCode { class: bytes[2], subclass: bytes[1], prog_if: bytes[0] }
}

impl ClassCode {
    /// Whether this is the class code of a VGA-compatible display controller.
    pub fn is_vga_display(&self) -> (yes: bool)
        ensures
            yes == (self.class == CLASS_DISPLAY && self.subclass == SUBCLASS_VGA_COMPATIBLE
                && self.prog_if == PROGIF_VGA_CONTROLLER),
    {
        self.class == CLASS_DISPLAY && self.subclass == SUBCLASS_VGA_COMPATIBLE && self.prog_if
            == PROGIF_VGA_CONTROLLER
    }
}

impl Location {
    /// Whether this is the slot of the integrated graphics controller.
    pub fn is_graphics_slot(&self) -> (yes: bool)
        ensures
            yes == is_graphics_slot(*self),
    {
        self.segment == 0 && self.bus == 0 && self.device == 2 && self.function == 0
    }
}

/// Whether a function with this vendor and class code is provisioned at all.
pub fn qualifies(vendor: u16, class: ClassCode) -> (yes: bool)
    ensures
        yes == is_intel_display(vendor as int, class),
{
    vendor == VENDOR_INTEL && class.is_vga_display()
}

} // verus!
