use vstd::prelude::*;

verus! {

/// An architecture's register file, as GDB reads and writes it.
pub trait Registers: Sized + Default {
    /// The register bytes in the order that the architecture's target description
    /// gives; `None` stands for a byte that is not available (sent as `xx`).
    fn gdb_serialize(&self) -> Vec<Option<u8>>;

    /// Loads the register file from bytes in the same order; `Err` when their
    /// number or shape does not fit the architecture.
    fn gdb_deserialize(&mut self, bytes: &[u8]) -> Result<(), ()>;
}

/// What the stub needs to know of the debugged architecture.
pub trait Arch {
    /// The register file.
    type Registers: Registers;

    /// The width of an address, in bytes.
    fn ptr_bytes() -> (r: usize)
        ensures
            1 <= r <= 8,
    ;

    /// The architecture's target description XML, if it has one.
    fn target_description_xml() -> Option<&'static str> {
        None
    }
}

} // verus!
