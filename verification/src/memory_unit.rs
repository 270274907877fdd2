//! The memory unit: the byte store, the symbol table and the program, with
//! the operations that read and write them.

use vstd::prelude::*;
use crate::data::{le_bytes, lemma_fitted_image, Data, Width};
use crate::fault::{fails_with, succeeds_with, Fault};
use crate::instruction::Instruction;
use crate::memory::{
    blank, fit, laid, lemma_loaded, lemma_position, lemma_with_bss_fails, lemma_with_data_fails,
    loaded, with_bss, with_data, Address, Memory, Section, Symbol, RAM_SIZE,
};

verus! {

/// The byte store: the bytes stored so far, and how many more it can take.
#[allow(clippy::upper_case_acronyms)]
#[derive(Debug, PartialEq, Eq)]
pub struct RAM {
    pub data: Vec<u8>,
    pub capacity: usize,
}

impl RAM {
    /// An empty store with the full capacity left.
    pub fn new() -> (ram: RAM)
        ensures
            ram.data@ == Seq::<u8>::empty(),
            ram.capacity == RAM_SIZE,
    {
        RAM { data: Vec::with_capacity(RAM_SIZE), capacity: RAM_SIZE }
    }
}

/// The memory unit: symbol table, program and byte store.
#[derive(Debug)]
pub struct MemoryUnit {
    data_section: Vec<Symbol>,
    code_section: Vec<Instruction>,
    data_bus: RAM,
}

impl View for MemoryUnit {
    type V = Memory;

    closed spec fn view(&self) -> Memory {
        Memory {
            symbols: self.data_section@,
            code: self.code_section@,
            ram: self.data_bus.data@,
            capacity: self.data_bus.capacity as nat,
        }
    }
}

impl MemoryUnit {
    /// The unit's invariant; see [`Memory::wf`].
    pub open spec fn wf(&self) -> bool {
        self@.wf()
    }

    /// Builds the memory of a program: lays out the data section, then the
    /// uninitialized section, cell after cell from offset zero, and keeps
    /// the instructions. Fails on a label declared twice and on
    /// declarations that need more bytes than the store has.
    pub fn new(
        data_section: Vec<(String, Data)>,
        bss_section: Vec<(String, Width)>,
        code_section: Vec<Instruction>,
    ) -> (unit: Result<MemoryUnit, Fault>)
        ensures
            match unit {
                Ok(unit) => unit.wf() && succeeds_with(
                    loaded(data_section@, bss_section@, code_section@),
                    unit@,
                ) && laid(
                    unit@,
                    data_section@,
                    bss_section@,
                    data_section@.len(),
                    bss_section@.len(),
                ) && unit@.code == code_section@,
                Err(fault) => fails_with(loaded(data_section@, bss_section@, code_section@), fault),
            },
    {
        let ghost code = code_section@;
        let mut unit = MemoryUnit {
            data_section: Vec::new(),
            code_section,
            data_bus: RAM::new(),
        };
        assert(unit@ == blank(code));
        let mut index: usize = 0;
        while index < data_section.len()
            invariant
                index <= data_section.len(),
                unit.wf(),
                code == code_section@,
                succeeds_with(with_data(blank(code), data_section@, index as nat), unit@),
            decreases data_section.len() - index,
        {
            let label = data_section[index].0.clone();
            let value = data_section[index].1;
            match unit.store_label_data(label, value, Section::Data) {
                Ok(()) => {},
                Err(fault) => {
                    proof {
                        assert(fails_with(
                            with_data(blank(code), data_section@, (index + 1) as nat),
                            fault,
                        ));
                        lemma_with_data_fails(
                            blank(code),
                            data_section@,
                            (index + 1) as nat,
                            data_section@.len(),
                        );
                    }
                    return Err(fault);
                },
            }
            index = index + 1;
        }
        let ghost start = unit@;
        let mut index: usize = 0;
        while index < bss_section.len()
            invariant
                index <= bss_section.len(),
                unit.wf(),
                code == code_section@,
                succeeds_with(with_data(blank(code), data_section@, data_section@.len()), start),
                succeeds_with(with_bss(start, bss_section@, index as nat), unit@),
            decreases bss_section.len() - index,
        {
            let label = bss_section[index].0.clone();
            let value = Data::new(bss_section[index].1, 0);
            match unit.store_label_data(label, value, Section::Bss) {
                Ok(()) => {},
                Err(fault) => {
                    proof {
                        assert(fails_with(
                            with_bss(start, bss_section@, (index + 1) as nat),
                            fault,
                        ));
                        lemma_with_bss_fails(
                            start,
                            bss_section@,
                            (index + 1) as nat,
                            bss_section@.len(),
                        );
                    }
                    return Err(fault);
                },
            }
            index = index + 1;
        }
        proof {
            lemma_loaded(data_section@, bss_section@, code);
        }
        Ok(unit)
    }

    /// The number of entries in the symbol table.
    pub fn symbol_count(&self) -> (count: usize)
        ensures
            count == self@.symbols.len(),
    {
        self.data_section.len()
    }

    /// Declares one label: appends a cell of the value's width to the stored
    /// bytes, holding the value, and enters the label in the symbol table.
    /// Fails, changing nothing, on a label that is already declared and on a
    /// cell that the spare capacity cannot hold.
    pub fn store_label_data(&mut self, label: String, value: Data, section: Section) -> (result:
        Result<(), Fault>)
        requires
            old(self).wf(),
        ensures
            final(self).wf(),
            match result {
                Ok(()) => succeeds_with(old(self)@.declared(label, value, section), final(self)@),
                Err(fault) => fails_with(old(self)@.declared(label, value, section), fault)
                    && final(self)@ == old(self)@,
            },
    {
        if self.find(&label).is_some() {
            return Err(Fault::DuplicateLabel { label });
        }
        let width = value.width();
        let size = width.byte_count();
        if size as usize > self.data_bus.capacity {
            return Err(Fault::CapacityExhausted);
        }
        let offset = self.data_bus.data.len() as u16;
        let mut bytes = value.to_le_bytes();
        self.data_bus.data.append(&mut bytes);
        self.data_bus.capacity = self.data_bus.capacity - size as usize;
        self.data_section.push(Symbol { label, offset, width, section, written: false });
        proof {
            let ghost expected = old(self)@.declared(label, value, section)->Ok_0;
            assert(self@.symbols =~= expected.symbols);
            assert(self@.ram =~= expected.ram);
        }
        Ok(())
    }

    /// How many more bytes the store can take.
    pub fn get_mem_capacity(&self) -> (capacity: usize)
        ensures
            capacity == self@.capacity,
    {
        self.data_bus.capacity
    }

    /// How many bytes are stored.
    pub fn get_data_len(&self) -> (length: usize)
        ensures
            length == self@.ram.len(),
    {
        self.data_bus.data.len()
    }

    /// Looks a label up in the symbol table.
    pub fn find(&self, label: &String) -> (found: Option<usize>)
        requires
            self.wf(),
        ensures
            match found {
                Some(index) => self@.position(label@) == Some(index as int),
                None => self@.position(label@) is None,
            },
    {
        let mut index: usize = 0;
        while index < self.data_section.len()
            invariant
                index <= self.data_section.len(),
                self.wf(),
                forall|i: int|
                    0 <= i < index ==> (#[trigger] self.data_section@[i]).label@ != label@,
            decreases self.data_section.len() - index,
        {
            if self.data_section[index].label.eq(label) {
                proof {
                    lemma_position(self@, index as int);
                }
                return Some(index);
            }
            index = index + 1;
        }
        None
    }

    /// Reads the bytes of the range that `address` describes. Fails when the
    /// range reaches beyond the store's capacity or beyond the bytes stored.
    pub fn read_data(&self, address: Data) -> (result: Result<Vec<u8>, Fault>)
        requires
            self.wf(),
        ensures
            match result {
                Ok(bytes) => succeeds_with(
                    self@.read(Address::unpacked(address.value())),
                    bytes@,
                ),
                Err(fault) => fails_with(self@.read(Address::unpacked(address.value())), fault),
            },
    {
        let range = Address::decode(address);
        let start = range.offset as usize;
        let end = range.offset as usize + range.length as usize;
        let stored = self.data_bus.data.len();
        if end > stored + self.data_bus.capacity {
            return Err(Fault::CapacityExhausted);
        }
        if end > stored {
            return Err(Fault::OutOfBounds);
        }
        let mut bytes: Vec<u8> = Vec::new();
        let mut index: usize = start;
        while index < end
            invariant
                start <= index <= end <= self.data_bus.data@.len(),
                bytes@ == self.data_bus.data@.subrange(start as int, index as int),
            decreases end - index,
        {
            bytes.push(self.data_bus.data[index]);
            index = index + 1;
        }
        Ok(bytes)
    }

    /// Writes `data` to the range that `address` describes. The range takes
    /// `data` cut or zero-filled to the range's length; the store grows, at
    /// the cost of spare capacity, when the range ends beyond the bytes
    /// stored, and a gap before the range is zero. Every cell that lies
    /// wholly in the range counts as written from then on. Fails, changing
    /// nothing, when the range reaches beyond the store's capacity.
    pub fn write_data(&mut self, address: Data, data: Vec<u8>) -> (result: Result<(), Fault>)
        requires
            old(self).wf(),
        ensures
            final(self).wf(),
            match result {
                Ok(()) => succeeds_with(
                    old(self)@.write(Address::unpacked(address.value()), data@),
                    final(self)@,
                ),
                Err(fault) => fails_with(
                    old(self)@.write(Address::unpacked(address.value()), data@),
                    fault,
                ) && final(self)@ == old(self)@,
            },
    {
        let range = Address::decode(address);
        let start = range.offset as usize;
        let length = range.length as usize;
        let end = start + length;
        if end > self.data_bus.data.len() + self.data_bus.capacity {
            return Err(Fault::CapacityExhausted);
        }
        while self.data_bus.data.len() < end
            invariant
                self.data_section == old(self).data_section,
                self.code_section == old(self).code_section,
                self.data_bus.data@.len() + self.data_bus.capacity == RAM_SIZE,
                end <= RAM_SIZE,
                old(self).data_bus.data@.len() <= self.data_bus.data@.len(),
                self.data_bus.data@.len() <= end || self.data_bus.data@.len() == old(
                    self,
                ).data_bus.data@.len(),
                forall|i: int|
                    0 <= i < self.data_bus.data@.len() ==> self.data_bus.data@[i] == (if i < old(
                        self,
                    ).data_bus.data@.len() {
                        old(self).data_bus.data@[i]
                    } else {
                        0u8
                    }),
            decreases end - self.data_bus.data@.len(),
        {
            self.data_bus.data.push(0);
            self.data_bus.capacity = self.data_bus.capacity - 1;
        }
        let ghost grown = self.data_bus.data@;
        let mut index: usize = 0;
        while index < length
            invariant
                index <= length,
                end == start + length,
                end <= self.data_bus.data@.len(),
                self.data_section == old(self).data_section,
                self.code_section == old(self).code_section,
                self.data_bus.data@.len() + self.data_bus.capacity == RAM_SIZE,
                self.data_bus.data@.len() == grown.len(),
                forall|i: int|
                    0 <= i < grown.len() ==> self.data_bus.data@[i] == (if start <= i < start
                        + index {
                        fit(data@, length as nat)[i - start]
                    } else {
                        grown[i]
                    }),
            decreases length - index,
        {
            let byte: u8 = if index < data.len() { data[index] } else { 0 };
            self.data_bus.data.set(start + index, byte);
            index = index + 1;
        }
        let ghost filled = self.data_bus.data@;
        let mut entry: usize = 0;
        while entry < self.data_section.len()
            invariant
                entry <= self.data_section@.len(),
                range == Address::unpacked(address.value()),
                start == range.offset,
                end == range.end(),
                self.data_section@.len() == old(self).data_section@.len(),
                self.code_section == old(self).code_section,
                self.data_bus.data@ == filled,
                self.data_bus.data@.len() + self.data_bus.capacity == RAM_SIZE,
                forall|i: int|
                    0 <= i < self.data_section@.len() ==> #[trigger] self.data_section@[i] == (
                    if i < entry {
                        old(self)@.marked(range)[i]
                    } else {
                        old(self).data_section@[i]
                    }),
            decreases self.data_section@.len() - entry,
        {
            let first = self.data_section[entry].offset as usize;
            let size = self.data_section[entry].width.byte_count() as usize;
            if start <= first && first + size <= end {
                let symbol = &mut self.data_section[entry];
                symbol.written = true;
            }
            entry = entry + 1;
        }
        proof {
            let ghost expected = old(self)@.write(Address::unpacked(address.value()), data@)->Ok_0;
            assert(self@.ram =~= expected.ram);
            assert(self@.symbols =~= expected.symbols);
        }
        Ok(())
    }

    /// The symbol-table entry at `index`.
    pub fn symbol(&self, index: usize) -> (symbol: &Symbol)
        requires
            index < self@.symbols.len(),
        ensures
            *symbol == self@.symbols[index as int],
    {
        &self.data_section[index]
    }

    /// The descriptor of the cell that `label` names: the label's own
    /// address, as a number.
    pub fn address_of(&self, label: &String) -> (result: Result<Data, Fault>)
        requires
            self.wf(),
        ensures
            result == self@.address_of(*label),
    {
        match self.find(label) {
            None => Err(Fault::UndeclaredMemoryAccess { label: label.clone() }),
            Some(index) => Ok(self.data_section[index].address().encode()),
        }
    }

    /// Whether the cell of entry `index` may be read.
    pub fn is_readable(&self, index: usize) -> (readable: bool)
        requires
            self.wf(),
            index < self@.symbols.len(),
        ensures
            readable == self@.readable(index as int),
    {
        let symbol = &self.data_section[index];
        match symbol.section {
            Section::Bss => true,
            Section::Data => symbol.written || self.peek(index).get_value() != 0,
        }
    }

    /// The value in the cell of entry `index`, whether or not the cell may
    /// be read.
    fn peek(&self, index: usize) -> (value: Data)
        requires
            self.wf(),
            index < self@.symbols.len(),
        ensures
            value == self@.cell(index as int),
    {
        proof {
            reveal(Memory::cell);
        }
        let symbol = &self.data_section[index];
        let start = symbol.offset as usize;
        let size = symbol.width.byte_count() as usize;
        let mut bytes: Vec<u8> = Vec::new();
        let mut taken: usize = 0;
        while taken < size
            invariant
                taken <= size,
                start + size <= self.data_bus.data@.len() <= RAM_SIZE,
                bytes@ == self.data_bus.data@.subrange(start as int, start + taken),
            decreases size - taken,
        {
            bytes.push(self.data_bus.data[start + taken]);
            taken = taken + 1;
        }
        Data::from_le_bytes(symbol.width, &bytes)
    }

    /// Loads the value of the cell of entry `index`, at the cell's width.
    /// Fails on a cell of the data section that holds zero and was never
    /// stored to.
    pub fn load_at(&self, index: usize) -> (result: Result<Data, Fault>)
        requires
            self.wf(),
            index < self@.symbols.len(),
        ensures
            result == self@.load_at(index as int),
    {
        if self.is_readable(index) {
            Ok(self.peek(index))
        } else {
            Err(Fault::UninitializedMemory { label: self.data_section[index].label.clone() })
        }
    }

    /// Stores `value`, fitted to the cell's width, in the cell of entry
    /// `index`, and marks the cell as written. Returns the value stored.
    pub fn store_at(&mut self, index: usize, value: u32) -> (stored: Data)
        requires
            old(self).wf(),
            index < old(self)@.symbols.len(),
        ensures
            final(self).wf(),
            final(self)@ == old(self)@.stored_at(index as int, value),
            stored == Data::fitted(old(self)@.symbols[index as int].width, value),
    {
        let width = self.data_section[index].width;
        let start = self.data_section[index].offset as usize;
        let stored = Data::new(width, value);
        let bytes = stored.to_le_bytes();
        proof {
            lemma_fitted_image(width, value);
        }
        let mut index_in_cell: usize = 0;
        while index_in_cell < bytes.len()
            invariant
                index_in_cell <= bytes@.len(),
                bytes@ == le_bytes(value, width.bytes()),
                start + bytes@.len() <= self.data_bus.data@.len() <= RAM_SIZE,
                self.data_section == old(self).data_section,
                self.code_section == old(self).code_section,
                self.data_bus.capacity == old(self).data_bus.capacity,
                self.data_bus.data@.len() == old(self).data_bus.data@.len(),
                forall|i: int|
                    0 <= i < self.data_bus.data@.len() ==> self.data_bus.data@[i] == (if start <= i
                        < start + index_in_cell {
                        bytes@[i - start]
                    } else {
                        old(self).data_bus.data@[i]
                    }),
            decreases bytes@.len() - index_in_cell,
        {
            self.data_bus.data.set(start + index_in_cell, bytes[index_in_cell]);
            index_in_cell = index_in_cell + 1;
        }
        let entry = &mut self.data_section[index];
        entry.written = true;
        proof {
            let ghost expected = old(self)@.stored_at(index as int, value);
            assert(self@.ram =~= expected.ram);
            assert(self@.symbols =~= expected.symbols);
        }
        stored
    }

    /// Loads the value of the cell that `label` names. Fails on a label that
    /// no section declares, and on a cell that may not be read.
    pub fn load(&self, label: &String) -> (result: Result<Data, Fault>)
        requires
            self.wf(),
        ensures
            result == self@.load(*label),
    {
        match self.find(label) {
            None => Err(Fault::UndeclaredMemoryAccess { label: label.clone() }),
            Some(index) => self.load_at(index),
        }
    }

    /// Stores `value` in the cell that `label` names, fitted to the cell's
    /// width. Fails, changing nothing, when no section declares the label.
    pub fn store(&mut self, label: &String, value: u32) -> (result: Result<Data, Fault>)
        requires
            old(self).wf(),
        ensures
            final(self).wf(),
            match result {
                Ok(stored) => succeeds_with(old(self)@.store(*label, value), final(self)@)
                    && stored == Data::fitted(
                    old(self)@.symbols[old(self)@.position(label@)->0].width,
                    value,
                ),
                Err(fault) => fails_with(old(self)@.store(*label, value), fault) && final(self)@
                    == old(self)@,
            },
    {
        match self.find(label) {
            None => Err(Fault::UndeclaredMemoryAccess { label: label.clone() }),
            Some(index) => Ok(self.store_at(index, value)),
        }
    }

    /// The number of instructions in the program.
    pub fn code_len(&self) -> (length: usize)
        ensures
            length == self@.code.len(),
    {
        self.code_section.len()
    }

    /// A copy of the instruction at `index`.
    pub fn instruction(&self, index: usize) -> (instruction: Instruction)
        requires
            index < self@.code.len(),
        ensures
            instruction.opcode == self@.code[index as int].opcode,
            instruction.operands@ == self@.code[index as int].operands@,
    {
        self.code_section[index].clone()
    }
}

} // verus!
