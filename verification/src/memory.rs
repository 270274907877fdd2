//! The model of the memory: a flat byte store of fixed capacity, a symbol
//! table that maps each declared label to a cell of the store, and the
//! program.
//!
//! A cell is reached through an address descriptor, one 32-bit number whose
//! low half is the byte offset and whose high half is the length in bytes.
//! The length of a cell is its width, so descriptors of cells of different
//! widths differ in their upper bits.

use vstd::prelude::*;
use crate::data::{le_bytes, le_value, lemma_fitted_image, lemma_image_round_trip, Data, Width};
use crate::fault::Fault;
use crate::instruction::Instruction;

verus! {

/// Capacity of the byte store.
pub const RAM_SIZE: usize = 1024;

/// A range of the byte store.
#[derive(Clone, Copy, Debug, PartialEq, Eq, Structural)]
pub struct Address {
    pub offset: u16,
    pub length: u16,
}

impl Address {
    /// The descriptor of the range: length in the high 16 bits, offset in
    /// the low 16.
    pub open spec fn packed(self) -> u32 {
        (self.length * 0x1_0000 + self.offset) as u32
    }

    /// The range that a descriptor describes.
    pub open spec fn unpacked(descriptor: u32) -> Address {
        Address { offset: (descriptor % 0x1_0000) as u16, length: (descriptor / 0x1_0000) as u16 }
    }

    /// One past the last byte of the range.
    pub open spec fn end(self) -> nat {
        (self.offset + self.length) as nat
    }

    /// Whether the range holds every byte of the other range.
    pub open spec fn covers(self, other: Address) -> bool {
        self.offset <= other.offset && other.end() <= self.end()
    }

    /// Packs the range into a descriptor.
    pub fn encode(&self) -> (descriptor: Data)
        ensures
            descriptor == Data::Dword(self.packed()),
    {
        Data::Dword((self.length as u32) * 0x1_0000 + self.offset as u32)
    }

    /// Unpacks a descriptor. Every number is the descriptor of some range.
    pub fn decode(descriptor: Data) -> (address: Address)
        ensures
            address == Address::unpacked(descriptor.value()),
    {
        let number = descriptor.get_value();
        Address { offset: (number % 0x1_0000) as u16, length: (number / 0x1_0000) as u16 }
    }
}

/// `bytes` cut or zero-filled to exactly `length` bytes.
pub open spec fn fit(bytes: Seq<u8>, length: nat) -> Seq<u8> {
    Seq::new(length, |i: int| if i < bytes.len() { bytes[i] } else { 0u8 })
}

/// The store after `bytes`, cut or zero-filled to `length`, are written at
/// `offset`: the store grows to hold the range if it must, any gap is zero,
/// and every byte outside the range stays.
pub open spec fn patched(ram: Seq<u8>, offset: nat, length: nat, bytes: Seq<u8>) -> Seq<u8> {
    Seq::new(
        if ram.len() < offset + length { offset + length } else { ram.len() },
        |i: int|
            if offset <= i < offset + length {
                fit(bytes, length)[i - offset]
            } else if i < ram.len() {
                ram[i]
            } else {
                0u8
            },
    )
}

/// Which section declared a label.
#[derive(Clone, Copy, Debug, PartialEq, Eq, Structural)]
pub enum Section {
    /// Declared with an initial value.
    Data,
    /// Declared without one: the cell starts at zero and may be read as it
    /// is.
    Bss,
}

/// One entry of the symbol table: a label and the cell it names.
#[derive(Debug, PartialEq, Eq)]
pub struct Symbol {
    pub label: String,
    pub offset: u16,
    pub width: Width,
    pub section: Section,
    /// Whether the cell has been written: by a store to the label, or by a
    /// write to a range that holds the whole cell.
    pub written: bool,
}

impl Symbol {
    /// The range of the store that the cell occupies.
    pub open spec fn spec_address(&self) -> Address {
        Address { offset: self.offset, length: self.width.bytes() as u16 }
    }

    /// The entry with its cell marked as written.
    pub open spec fn marked(self) -> Symbol {
        Symbol {
            label: self.label,
            offset: self.offset,
            width: self.width,
            section: self.section,
            written: true,
        }
    }

    /// The range of the store that the cell occupies.
    #[verifier::when_used_as_spec(spec_address)]
    pub fn address(&self) -> (address: Address)
        ensures
            address == self.spec_address(),
    {
        Address { offset: self.offset, length: self.width.byte_count() }
    }
}

/// The mathematical content of a memory unit.
pub struct Memory {
    pub symbols: Seq<Symbol>,
    pub code: Seq<Instruction>,
    pub ram: Seq<u8>,
    pub capacity: nat,
}

impl Memory {
    /// The invariant of a memory unit: stored bytes and spare capacity add
    /// up to the store's size; every cell lies within the stored bytes;
    /// cells follow one another in table order without overlap; no label
    /// occurs twice.
    pub open spec fn wf(self) -> bool {
        &&& self.ram.len() + self.capacity == RAM_SIZE
        &&& forall|i: int|
            0 <= i < self.symbols.len() ==> (#[trigger] self.symbols[i]).spec_address().end()
                <= self.ram.len()
        &&& forall|i: int, j: int|
            0 <= i < j < self.symbols.len() ==> (#[trigger] self.symbols[i]).spec_address().end()
                <= (#[trigger] self.symbols[j]).offset
        &&& forall|i: int, j: int|
            0 <= i < j < self.symbols.len() ==> (#[trigger] self.symbols[i]).label@
                != (#[trigger] self.symbols[j]).label@
    }

    /// Whether the table has an entry for `label`.
    pub open spec fn declares(self, label: Seq<char>) -> bool {
        exists|i: int| 0 <= i < self.symbols.len() && (#[trigger] self.symbols[i]).label@ == label
    }

    /// The table index of the entry for `label`.
    pub open spec fn position(self, label: Seq<char>) -> Option<int> {
        if self.declares(label) {
            Some(
                choose|i: int|
                    0 <= i < self.symbols.len() && (#[trigger] self.symbols[i]).label@ == label,
            )
        } else {
            None
        }
    }

    /// What a read of the range gives: the bytes, if all of them were
    /// stored.
    pub open spec fn read(self, address: Address) -> Result<Seq<u8>, Fault> {
        if address.end() > self.ram.len() + self.capacity {
            Err(Fault::CapacityExhausted)
        } else if address.end() > self.ram.len() {
            Err(Fault::OutOfBounds)
        } else {
            Ok(self.ram.subrange(address.offset as int, address.end() as int))
        }
    }

    /// The symbol table after a write to the range: every entry whose cell
    /// lies wholly in the range is marked as written, every other entry
    /// stays.
    pub open spec fn marked(self, address: Address) -> Seq<Symbol> {
        Seq::new(
            self.symbols.len(),
            |i: int|
                if address.covers(self.symbols[i].spec_address()) {
                    self.symbols[i].marked()
                } else {
                    self.symbols[i]
                },
        )
    }

    /// The memory after a write of `bytes` to the range, if the store can
    /// hold the range. The cells that the range covers count as written.
    pub open spec fn write(self, address: Address, bytes: Seq<u8>) -> Result<Memory, Fault> {
        if address.end() > self.ram.len() + self.capacity {
            Err(Fault::CapacityExhausted)
        } else {
            let ram = patched(self.ram, address.offset as nat, address.length as nat, bytes);
            Ok(
                Memory {
                    symbols: self.marked(address),
                    ram,
                    capacity: (self.ram.len() + self.capacity - ram.len()) as nat,
                    ..self
                },
            )
        }
    }

    /// The value that the cell of entry `index` holds, at the cell's width.
    #[verifier::opaque]
    pub open spec fn cell(self, index: int) -> Data {
        let symbol = self.symbols[index];
        Data::fitted(
            symbol.width,
            le_value(
                self.ram.subrange(symbol.offset as int, symbol.spec_address().end() as int),
            ),
        )
    }

    /// Whether the cell of entry `index` may be read: a cell of the data
    /// section that holds zero and was never written may not.
    pub open spec fn readable(self, index: int) -> bool {
        let symbol = self.symbols[index];
        symbol.section == Section::Bss || symbol.written || self.cell(index).value() != 0
    }

    /// The memory after `value`, fitted to the cell's width, is stored in
    /// the cell of entry `index`.
    pub open spec fn stored_at(self, index: int, value: u32) -> Memory {
        let symbol = self.symbols[index];
        Memory {
            ram: patched(
                self.ram,
                symbol.offset as nat,
                symbol.width.bytes(),
                le_bytes(value, symbol.width.bytes()),
            ),
            symbols: self.symbols.update(index, symbol.marked()),
            ..self
        }
    }

    /// What a load from the cell of entry `index` gives: the cell's value,
    /// or, where the cell may not be read, a fault that carries the entry's
    /// label.
    pub open spec fn load_at(self, index: int) -> Result<Data, Fault> {
        if self.readable(index) {
            Ok(self.cell(index))
        } else {
            Err(Fault::UninitializedMemory { label: self.symbols[index].label })
        }
    }

    /// What a load from `label` gives.
    pub open spec fn load(self, label: String) -> Result<Data, Fault> {
        match self.position(label@) {
            None => Err(Fault::UndeclaredMemoryAccess { label }),
            Some(index) => self.load_at(index),
        }
    }

    /// The memory after a store of `value` to `label`.
    pub open spec fn store(self, label: String, value: u32) -> Result<Memory, Fault> {
        match self.position(label@) {
            None => Err(Fault::UndeclaredMemoryAccess { label }),
            Some(index) => Ok(self.stored_at(index, value)),
        }
    }

    /// The descriptor of the cell that `label` names.
    pub open spec fn address_of(self, label: String) -> Result<Data, Fault> {
        match self.position(label@) {
            None => Err(Fault::UndeclaredMemoryAccess { label }),
            Some(index) => Ok(Data::Dword(self.symbols[index].spec_address().packed())),
        }
    }

    /// The memory after one more label is declared: its cell is appended to
    /// the stored bytes, holding `value`.
    pub open spec fn declared(self, label: String, value: Data, section: Section) -> Result<
        Memory,
        Fault,
    > {
        if self.declares(label@) {
            Err(Fault::DuplicateLabel { label })
        } else if value.spec_width().bytes() > self.capacity {
            Err(Fault::CapacityExhausted)
        } else {
            Ok(
                Memory {
                    symbols: self.symbols.push(
                        Symbol {
                            label,
                            offset: self.ram.len() as u16,
                            width: value.spec_width(),
                            section,
                            written: false,
                        },
                    ),
                    ram: self.ram + value.image(),
                    capacity: (self.capacity - value.spec_width().bytes()) as nat,
                    ..self
                },
            )
        }
    }
}

/// In a well-formed memory the entry that carries a label is the position
/// of that label.
pub proof fn lemma_position(memory: Memory, index: int)
    requires
        memory.wf(),
        0 <= index < memory.symbols.len(),
    ensures
        memory.position(memory.symbols[index].label@) == Some(index),
{
    let label = memory.symbols[index].label@;
    assert(memory.declares(label));
    let found = memory.position(label)->0;
    assert(0 <= found < memory.symbols.len() && memory.symbols[found].label@ == label);
    if found < index {
        assert(memory.symbols[found].label@ != memory.symbols[index].label@);
    } else if index < found {
        assert(memory.symbols[index].label@ != memory.symbols[found].label@);
    }
}

/// A memory with no label declared and nothing stored.
pub open spec fn blank(code: Seq<Instruction>) -> Memory {
    Memory { symbols: Seq::empty(), code, ram: Seq::empty(), capacity: RAM_SIZE as nat }
}

/// The memory after the first `count` declarations of the data section are
/// laid out in order, each cell behind the one before.
pub open spec fn with_data(memory: Memory, data: Seq<(String, Data)>, count: nat) -> Result<
    Memory,
    Fault,
>
    decreases count,
{
    if count == 0 {
        Ok(memory)
    } else {
        match with_data(memory, data, (count - 1) as nat) {
            Err(fault) => Err(fault),
            Ok(before) => before.declared(data[count - 1].0, data[count - 1].1, Section::Data),
        }
    }
}

/// The memory after the first `count` reservations of the uninitialized
/// section are laid out in order, each cell zero.
pub open spec fn with_bss(memory: Memory, bss: Seq<(String, Width)>, count: nat) -> Result<
    Memory,
    Fault,
>
    decreases count,
{
    if count == 0 {
        Ok(memory)
    } else {
        match with_bss(memory, bss, (count - 1) as nat) {
            Err(fault) => Err(fault),
            Ok(before) => before.declared(
                bss[count - 1].0,
                Data::fitted(bss[count - 1].1, 0),
                Section::Bss,
            ),
        }
    }
}

/// The memory that a program starts with: the data section laid out from
/// offset zero, the uninitialized section behind it.
pub open spec fn loaded(
    data: Seq<(String, Data)>,
    bss: Seq<(String, Width)>,
    code: Seq<Instruction>,
) -> Result<Memory, Fault> {
    match with_data(blank(code), data, data.len()) {
        Err(fault) => Err(fault),
        Ok(memory) => with_bss(memory, bss, bss.len()),
    }
}

/// A declaration that fails leaves the whole section failed, with the same
/// fault.
pub proof fn lemma_with_data_fails(
    memory: Memory,
    data: Seq<(String, Data)>,
    count: nat,
    total: nat,
)
    requires
        count <= total,
        with_data(memory, data, count) is Err,
    ensures
        with_data(memory, data, total) == with_data(memory, data, count),
    decreases total,
{
    if count < total {
        lemma_with_data_fails(memory, data, count, (total - 1) as nat);
    }
}

/// A reservation that fails leaves the whole section failed, with the same
/// fault.
pub proof fn lemma_with_bss_fails(
    memory: Memory,
    bss: Seq<(String, Width)>,
    count: nat,
    total: nat,
)
    requires
        count <= total,
        with_bss(memory, bss, count) is Err,
    ensures
        with_bss(memory, bss, total) == with_bss(memory, bss, count),
    decreases total,
{
    if count < total {
        lemma_with_bss_fails(memory, bss, count, (total - 1) as nat);
    }
}

/// Two symbol tables that carry the same labels in the same order find
/// every label at the same position.
pub proof fn lemma_same_labels(before: Memory, after: Memory)
    requires
        before.wf(),
        after.symbols.len() == before.symbols.len(),
        forall|i: int|
            0 <= i < before.symbols.len() ==> (#[trigger] after.symbols[i]).label
                == before.symbols[i].label,
    ensures
        forall|label: Seq<char>| #[trigger] after.position(label) == before.position(label),
{
    assert forall|label: Seq<char>| #[trigger] after.position(label) == before.position(label) by {
        if after.declares(label) {
            let found = after.position(label)->0;
            assert(after.symbols[found].label@ == before.symbols[found].label@);
            lemma_position(before, found);
        } else if before.declares(label) {
            let found = before.position(label)->0;
            assert(after.symbols[found].label@ == label);
        }
    }
}

/// A write keeps the memory well formed and every label where it was; the
/// range written reads back as the bytes written, cut or zero-filled to its
/// length; and every cell that lies wholly in the range is readable
/// afterwards.
pub proof fn lemma_written(memory: Memory, address: Address, bytes: Seq<u8>)
    requires
        memory.wf(),
        memory.write(address, bytes) is Ok,
    ensures
        memory.write(address, bytes)->Ok_0.wf(),
        memory.write(address, bytes)->Ok_0.symbols.len() == memory.symbols.len(),
        forall|label: Seq<char>| #[trigger]
            memory.write(address, bytes)->Ok_0.position(label) == memory.position(label),
        memory.write(address, bytes)->Ok_0.read(address) == Ok::<Seq<u8>, Fault>(
            fit(bytes, address.length as nat),
        ),
        forall|index: int|
            0 <= index < memory.symbols.len() && address.covers(
                memory.symbols[index].spec_address(),
            ) ==> #[trigger] memory.write(address, bytes)->Ok_0.readable(index),
{
    let after = memory.write(address, bytes)->Ok_0;
    assert(after.wf());
    lemma_same_labels(memory, after);
    assert(after.ram.subrange(address.offset as int, address.end() as int) =~= fit(
        bytes,
        address.length as nat,
    ));
}

/// A store to a cell keeps the memory well formed, leaves every label where
/// it was, makes the cell readable with exactly the stored value, and
/// changes no other cell.
pub proof fn lemma_store_then_load(memory: Memory, index: int, value: u32)
    requires
        memory.wf(),
        0 <= index < memory.symbols.len(),
    ensures
        memory.stored_at(index, value).wf(),
        memory.stored_at(index, value).symbols.len() == memory.symbols.len(),
        forall|label: Seq<char>| #[trigger]
            memory.stored_at(index, value).position(label) == memory.position(label),
        memory.stored_at(index, value).readable(index),
        memory.stored_at(index, value).cell(index) == Data::fitted(
            memory.symbols[index].width,
            value,
        ),
        forall|other: int|
            0 <= other < memory.symbols.len() && other != index ==> #[trigger] memory.stored_at(
                index,
                value,
            ).cell(other) == memory.cell(other),
{
    reveal(Memory::cell);
    let after = memory.stored_at(index, value);
    let symbol = memory.symbols[index];
    let width = symbol.width;
    assert(after.wf());
    lemma_same_labels(memory, after);
    assert(after.ram.subrange(symbol.offset as int, symbol.spec_address().end() as int)
        =~= le_bytes(value, width.bytes()));
    lemma_fitted_image(width, value);
    lemma_image_round_trip(Data::fitted(width, value));
    assert forall|other: int|
        0 <= other < memory.symbols.len() && other != index implies #[trigger] after.cell(other)
        == memory.cell(other) by {
        let neighbour = memory.symbols[other];
        if other < index {
            assert(neighbour.spec_address().end() <= symbol.offset);
        } else {
            assert(symbol.spec_address().end() <= neighbour.offset);
        }
        assert(after.ram.subrange(neighbour.offset as int, neighbour.spec_address().end() as int)
            =~= memory.ram.subrange(
            neighbour.offset as int,
            neighbour.spec_address().end() as int,
        ));
    }
}

/// In a well-formed memory the cell of entry `index` starts at offset
/// `index` or later: every cell before it takes at least one byte.
pub proof fn lemma_offsets_grow(memory: Memory, index: int)
    requires
        memory.wf(),
        0 <= index < memory.symbols.len(),
    ensures
        memory.symbols[index].offset >= index,
    decreases index,
{
    if index > 0 {
        lemma_offsets_grow(memory, index - 1);
        assert(memory.symbols[index - 1].spec_address().end() <= memory.symbols[index].offset);
    }
}

/// A well-formed memory has no more entries than the store has bytes.
pub proof fn lemma_symbol_count(memory: Memory)
    requires
        memory.wf(),
    ensures
        memory.symbols.len() <= RAM_SIZE,
{
    if memory.symbols.len() > 0 {
        let last = memory.symbols.len() - 1;
        lemma_offsets_grow(memory, last);
        assert(memory.symbols[last].spec_address().end() <= memory.ram.len());
    }
}

/// Declaring a label keeps the memory well formed, appends one entry whose
/// cell starts where the stored bytes ended and holds the declared value,
/// and leaves every earlier entry and its cell as they were.
pub proof fn lemma_declared(memory: Memory, label: String, value: Data, section: Section)
    requires
        memory.wf(),
        memory.declared(label, value, section) is Ok,
    ensures
        memory.declared(label, value, section)->Ok_0.wf(),
        memory.declared(label, value, section)->Ok_0.symbols.len() == memory.symbols.len() + 1,
        memory.declared(label, value, section)->Ok_0.symbols[memory.symbols.len() as int] == (
        Symbol {
            label,
            offset: memory.ram.len() as u16,
            width: value.spec_width(),
            section,
            written: false,
        }),
        memory.declared(label, value, section)->Ok_0.symbols[memory.symbols.len() as int].offset
            == memory.ram.len(),
        memory.declared(label, value, section)->Ok_0.ram.len() == memory.ram.len()
            + value.spec_width().bytes(),
        memory.declared(label, value, section)->Ok_0.cell(memory.symbols.len() as int) == value,
        forall|index: int|
            0 <= index < memory.symbols.len() ==> memory.declared(
                label,
                value,
                section,
            )->Ok_0.symbols[index] == memory.symbols[index] && #[trigger] memory.declared(
                label,
                value,
                section,
            )->Ok_0.cell(index) == memory.cell(index),
{
    reveal(Memory::cell);
    let after = memory.declared(label, value, section)->Ok_0;
    let count = memory.symbols.len() as int;
    lemma_image_round_trip(value);
    assert(after.ram.subrange(memory.ram.len() as int, after.ram.len() as int) =~= value.image());
    assert forall|index: int| 0 <= index < count implies after.symbols[index]
        == memory.symbols[index] && #[trigger] after.cell(index) == memory.cell(index) by {
        let symbol = memory.symbols[index];
        assert(symbol.spec_address().end() <= memory.ram.len());
        assert(after.ram.subrange(symbol.offset as int, symbol.spec_address().end() as int)
            =~= memory.ram.subrange(symbol.offset as int, symbol.spec_address().end() as int));
    }
    assert forall|i: int, j: int| 0 <= i < j < after.symbols.len() implies (
    #[trigger] after.symbols[i]).label@ != (#[trigger] after.symbols[j]).label@ by {
        if j == count {
            assert(memory.symbols[i].label@ != label@);
        }
    }
}

/// What it means for a memory to hold the first `d` declarations of a data
/// section followed by the first `b` reservations of an uninitialized
/// section: one entry each, in order, under the declared label; the cells
/// one directly behind the other from offset zero to the end of the stored
/// bytes; each data cell holding its declared value, each reserved cell
/// zero; no cell written yet.
pub open spec fn laid(
    memory: Memory,
    data: Seq<(String, Data)>,
    bss: Seq<(String, Width)>,
    d: nat,
    b: nat,
) -> bool {
    &&& memory.wf()
    &&& memory.symbols.len() == d + b
    &&& forall|i: int|
        0 <= i < d ==> {
            let symbol = #[trigger] memory.symbols[i];
            &&& symbol.label == data[i].0
            &&& symbol.width == data[i].1.spec_width()
            &&& symbol.section == Section::Data
            &&& !symbol.written
            &&& memory.cell(i) == data[i].1
        }
    &&& forall|k: int|
        d <= k < d + b ==> {
            let symbol = #[trigger] memory.symbols[k];
            &&& symbol.label == bss[k - d].0
            &&& symbol.width == bss[k - d].1
            &&& symbol.section == Section::Bss
            &&& !symbol.written
            &&& memory.cell(k) == Data::fitted(bss[k - d].1, 0)
        }
    &&& d + b > 0 ==> memory.symbols[0].offset == 0
    &&& forall|i: int, j: int|
        0 <= i && j == i + 1 && j < d + b ==> (#[trigger] memory.symbols[j]).offset == (
        #[trigger] memory.symbols[i]).spec_address().end()
    &&& memory.ram.len() == (if d + b == 0 {
        0
    } else {
        memory.symbols[d + b - 1].spec_address().end()
    })
}

/// Declaring the next entry keeps the layout: a memory that holds the first
/// `d` declarations and `b` reservations holds one more of them once the
/// next declaration, or the next reservation, is declared.
proof fn lemma_declared_keeps_laid(
    before: Memory,
    data: Seq<(String, Data)>,
    bss: Seq<(String, Width)>,
    d: nat,
    b: nat,
    label: String,
    value: Data,
    section: Section,
)
    requires
        laid(before, data, bss, d, b),
        before.declared(label, value, section) is Ok,
        section == Section::Data ==> b == 0 && label == data[d as int].0 && value
            == data[d as int].1,
        section == Section::Bss ==> label == bss[b as int].0 && value == Data::fitted(
            bss[b as int].1,
            0,
        ),
    ensures
        laid(
            before.declared(label, value, section)->Ok_0,
            data,
            bss,
            if section == Section::Data {
                d + 1
            } else {
                d
            },
            if section == Section::Data {
                0
            } else {
                b + 1
            },
        ),
        before.declared(label, value, section)->Ok_0.code == before.code,
{
    let after = before.declared(label, value, section)->Ok_0;
    let count = d + b;
    let d2: nat = if section == Section::Data {
        d + 1
    } else {
        d
    };
    let b2: nat = if section == Section::Data {
        0
    } else {
        b + 1
    };
    lemma_declared(before, label, value, section);
    assert(after.symbols.len() == count + 1 == d2 + b2);
    assert(after.symbols[count as int].offset == before.ram.len());
    assert(count > 0 ==> before.ram.len() == before.symbols[count - 1].spec_address().end());
    assert forall|i: int| 0 <= i < d2 implies {
        let symbol = #[trigger] after.symbols[i];
        &&& symbol.label == data[i].0
        &&& symbol.width == data[i].1.spec_width()
        &&& symbol.section == Section::Data
        &&& !symbol.written
        &&& after.cell(i) == data[i].1
    } by {
        if i < count {
            assert(after.symbols[i] == before.symbols[i]);
            assert(after.cell(i) == before.cell(i));
        }
    }
    assert forall|k: int| d2 <= k < d2 + b2 implies {
        let symbol = #[trigger] after.symbols[k];
        &&& symbol.label == bss[k - d2].0
        &&& symbol.width == bss[k - d2].1
        &&& symbol.section == Section::Bss
        &&& !symbol.written
        &&& after.cell(k) == Data::fitted(bss[k - d2].1, 0)
    } by {
        if k < count {
            assert(after.symbols[k] == before.symbols[k]);
            assert(after.cell(k) == before.cell(k));
        }
    }
    assert forall|i: int, j: int| 0 <= i && j == i + 1 && j < d2 + b2 implies (
    #[trigger] after.symbols[j]).offset == (
    #[trigger] after.symbols[i]).spec_address().end() by {
        assert(after.symbols[i] == before.symbols[i]);
        if j < count {
            assert(after.symbols[j] == before.symbols[j]);
        }
    }
    if count > 0 {
        assert(after.symbols[0] == before.symbols[0]);
    }
}

/// The data section, laid out: see [`laid`].
proof fn lemma_data_laid(
    data: Seq<(String, Data)>,
    bss: Seq<(String, Width)>,
    code: Seq<Instruction>,
    d: nat,
)
    requires
        with_data(blank(code), data, d) is Ok,
    ensures
        laid(with_data(blank(code), data, d)->Ok_0, data, bss, d, 0),
        with_data(blank(code), data, d)->Ok_0.code == code,
    decreases d,
{
    if d > 0 {
        let before = with_data(blank(code), data, (d - 1) as nat)->Ok_0;
        lemma_data_laid(data, bss, code, (d - 1) as nat);
        lemma_declared_keeps_laid(
            before,
            data,
            bss,
            (d - 1) as nat,
            0,
            data[d - 1].0,
            data[d - 1].1,
            Section::Data,
        );
    }
}

/// The uninitialized section, laid out behind a data section: see [`laid`].
proof fn lemma_bss_laid(
    memory: Memory,
    data: Seq<(String, Data)>,
    bss: Seq<(String, Width)>,
    b: nat,
)
    requires
        laid(memory, data, bss, data.len(), 0),
        with_bss(memory, bss, b) is Ok,
    ensures
        laid(with_bss(memory, bss, b)->Ok_0, data, bss, data.len(), b),
        with_bss(memory, bss, b)->Ok_0.code == memory.code,
    decreases b,
{
    if b > 0 {
        let before = with_bss(memory, bss, (b - 1) as nat)->Ok_0;
        lemma_bss_laid(memory, data, bss, (b - 1) as nat);
        lemma_declared_keeps_laid(
            before,
            data,
            bss,
            data.len(),
            (b - 1) as nat,
            bss[b - 1].0,
            Data::fitted(bss[b - 1].1, 0),
            Section::Bss,
        );
    }
}

/// The memory of a program. Whenever the sections can be laid out, the
/// memory is well formed and holds the declarations as [`laid`] says: every
/// declared label is found, its cell holds its initial value, the cells
/// follow one another from offset zero in the order of declaration, data
/// section first; and the program is kept as given.
pub proof fn lemma_loaded(
    data: Seq<(String, Data)>,
    bss: Seq<(String, Width)>,
    code: Seq<Instruction>,
)
    requires
        loaded(data, bss, code) is Ok,
    ensures
        laid(loaded(data, bss, code)->Ok_0, data, bss, data.len(), bss.len()),
        loaded(data, bss, code)->Ok_0.code == code,
{
    lemma_data_laid(data, bss, code, data.len());
    lemma_bss_laid(with_data(blank(code), data, data.len())->Ok_0, data, bss, bss.len());
}

} // verus!
