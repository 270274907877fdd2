use cpusim::data::{Data, Width};
use cpusim::fault::Fault;
use cpusim::instruction::{Instruction, Operand, IS};
use cpusim::memory::{Address, Section, RAM_SIZE};
use cpusim::memory_unit::{MemoryUnit, RAM};
use cpusim::registers::Register;

fn label(text: &str) -> String {
    text.to_string()
}

fn sample_unit() -> MemoryUnit {
    MemoryUnit::new(
        vec![
            (label("num"), Data::Word(10)),
            (label("flag"), Data::Byte(0x7F)),
            (label("total"), Data::Dword(0x0102_0304)),
            (label("result"), Data::Word(0)),
        ],
        vec![(label("buffer"), Width::Dword)],
        Vec::<Instruction>::new(),
    )
    .unwrap()
}

#[test]
fn new_ram_is_empty_with_full_capacity() {
    let ram = RAM::new();
    assert!(ram.data.is_empty());
    assert_eq!(ram.capacity, 1024);
    assert_eq!(RAM_SIZE, 1024);
}

#[test]
fn descriptor_packs_length_above_offset() {
    assert_eq!(Address { offset: 0, length: 1 }.encode(), Data::Dword(0x0001_0000));
    assert_eq!(Address { offset: 3, length: 2 }.encode(), Data::Dword(0x0002_0003));
    assert_eq!(Address { offset: 0x03FF, length: 4 }.encode(), Data::Dword(0x0004_03FF));
    assert_eq!(
        Address { offset: 0xFFFF, length: 0xFFFF }.encode(),
        Data::Dword(0xFFFF_FFFF)
    );
}

#[test]
fn descriptor_unpacks_any_number() {
    assert_eq!(Address::decode(Data::Dword(0x0002_0003)), Address { offset: 3, length: 2 });
    assert_eq!(Address::decode(Data::Word(0x0123)), Address { offset: 0x0123, length: 0 });
    assert_eq!(Address::decode(Data::Byte(9)), Address { offset: 9, length: 0 });
    assert_eq!(
        Address::decode(Data::Dword(0xFFFF_FFFF)),
        Address { offset: 0xFFFF, length: 0xFFFF }
    );
}

#[test]
fn descriptor_round_trips() {
    for (offset, length) in [(0u16, 0u16), (1, 1), (17, 2), (1020, 4), (0xFFFF, 0xFFFF)] {
        let address = Address { offset, length };
        assert_eq!(Address::decode(address.encode()), address);
    }
}

#[test]
fn descriptors_of_different_widths_differ_in_their_upper_bits() {
    for offset in [0u16, 1, 15, 16, 255, 256, 1023] {
        let byte = Address { offset, length: 1 }.encode().get_value();
        let word = Address { offset, length: 2 }.encode().get_value();
        let dword = Address { offset, length: 4 }.encode().get_value();
        assert_eq!(byte >> 16, 1);
        assert_eq!(word >> 16, 2);
        assert_eq!(dword >> 16, 4);
    }
}

#[test]
fn sections_are_laid_out_in_order() {
    let unit = sample_unit();
    assert_eq!(unit.get_data_len(), 2 + 1 + 4 + 2 + 4);
    assert_eq!(unit.get_mem_capacity(), 1024 - 13);
    assert_eq!(unit.find(&label("num")), Some(0));
    assert_eq!(unit.find(&label("flag")), Some(1));
    assert_eq!(unit.find(&label("total")), Some(2));
    assert_eq!(unit.find(&label("result")), Some(3));
    assert_eq!(unit.find(&label("buffer")), Some(4));
    assert_eq!(unit.find(&label("missing")), None);
    assert_eq!(unit.symbol_count(), 5);

    let expected = [
        ("num", 0u16, Width::Word, Section::Data),
        ("flag", 2, Width::Byte, Section::Data),
        ("total", 3, Width::Dword, Section::Data),
        ("result", 7, Width::Word, Section::Data),
        ("buffer", 9, Width::Dword, Section::Bss),
    ];
    for (index, (name, offset, width, section)) in expected.iter().enumerate() {
        let symbol = unit.symbol(index);
        assert_eq!(symbol.label, *name);
        assert_eq!(symbol.offset, *offset);
        assert_eq!(symbol.width, *width);
        assert_eq!(symbol.section, *section);
        assert!(!symbol.written);
        assert_eq!(
            symbol.address(),
            Address { offset: *offset, length: width.byte_count() }
        );
    }
    assert_eq!(
        unit.read_data(Address { offset: 0, length: 13 }.encode()),
        Ok(vec![10, 0, 0x7F, 4, 3, 2, 1, 0, 0, 0, 0, 0, 0])
    );
}

#[test]
fn address_of_gives_the_descriptor() {
    let unit = sample_unit();
    assert_eq!(unit.address_of(&label("num")), Ok(Data::Dword(0x0002_0000)));
    assert_eq!(unit.address_of(&label("flag")), Ok(Data::Dword(0x0001_0002)));
    assert_eq!(unit.address_of(&label("total")), Ok(Data::Dword(0x0004_0003)));
    assert_eq!(unit.address_of(&label("buffer")), Ok(Data::Dword(0x0004_0009)));
    assert_eq!(
        unit.address_of(&label("missing")),
        Err(Fault::UndeclaredMemoryAccess { label: label("missing") })
    );
}

#[test]
fn load_reads_the_cell_at_its_width() {
    let unit = sample_unit();
    assert_eq!(unit.load(&label("num")), Ok(Data::Word(10)));
    assert_eq!(unit.load(&label("flag")), Ok(Data::Byte(0x7F)));
    assert_eq!(unit.load(&label("total")), Ok(Data::Dword(0x0102_0304)));
    assert_eq!(unit.load_at(0), Ok(Data::Word(10)));
}

#[test]
fn zero_data_cell_is_unreadable_until_stored_to() {
    let mut unit = sample_unit();
    assert_eq!(
        unit.load(&label("result")),
        Err(Fault::UninitializedMemory { label: label("result") })
    );
    assert_eq!(
        unit.load_at(3),
        Err(Fault::UninitializedMemory { label: label("result") })
    );
    assert!(!unit.is_readable(3));
    assert_eq!(unit.store(&label("result"), 0), Ok(Data::Word(0)));
    assert!(unit.is_readable(3));
    assert!(unit.symbol(3).written);
    assert_eq!(unit.load(&label("result")), Ok(Data::Word(0)));
    assert_eq!(unit.store(&label("result"), 290), Ok(Data::Word(290)));
    assert_eq!(unit.load(&label("result")), Ok(Data::Word(290)));
}

#[test]
fn bss_cell_starts_at_zero_and_is_readable() {
    let mut unit = sample_unit();
    assert!(unit.is_readable(4));
    assert_eq!(unit.load(&label("buffer")), Ok(Data::Dword(0)));
    assert_eq!(unit.store(&label("buffer"), 0xDEAD_BEEF), Ok(Data::Dword(0xDEAD_BEEF)));
    assert_eq!(unit.load(&label("buffer")), Ok(Data::Dword(0xDEAD_BEEF)));
}

#[test]
fn store_fits_the_value_to_the_cell_and_spares_the_neighbours() {
    let mut unit = sample_unit();
    assert_eq!(unit.store(&label("flag"), 0x1234_5678), Ok(Data::Byte(0x78)));
    assert_eq!(unit.store_at(0, 0xFFFF_ABCD), Data::Word(0xABCD));
    assert_eq!(unit.load(&label("num")), Ok(Data::Word(0xABCD)));
    assert_eq!(unit.load(&label("flag")), Ok(Data::Byte(0x78)));
    assert_eq!(unit.load(&label("total")), Ok(Data::Dword(0x0102_0304)));
    assert_eq!(unit.get_data_len(), 13);
    assert_eq!(unit.get_mem_capacity(), 1024 - 13);
}

#[test]
fn undeclared_label_is_refused_both_ways() {
    let mut unit = sample_unit();
    let before = unit.read_data(Address { offset: 0, length: 13 }.encode());
    assert_eq!(
        unit.load(&label("ghost")),
        Err(Fault::UndeclaredMemoryAccess { label: label("ghost") })
    );
    assert_eq!(
        unit.store(&label("ghost"), 1),
        Err(Fault::UndeclaredMemoryAccess { label: label("ghost") })
    );
    assert_eq!(unit.read_data(Address { offset: 0, length: 13 }.encode()), before);
    assert_eq!(unit.get_data_len(), 13);
}

#[test]
fn duplicate_label_is_refused() {
    let twice = MemoryUnit::new(
        vec![(label("x"), Data::Byte(1)), (label("x"), Data::Word(2))],
        vec![],
        vec![],
    );
    assert_eq!(twice.err(), Some(Fault::DuplicateLabel { label: label("x") }));

    let across = MemoryUnit::new(
        vec![(label("x"), Data::Byte(1))],
        vec![(label("x"), Width::Byte)],
        vec![],
    );
    assert_eq!(across.err(), Some(Fault::DuplicateLabel { label: label("x") }));

    let mut unit = sample_unit();
    assert_eq!(
        unit.store_label_data(label("num"), Data::Byte(1), Section::Data),
        Err(Fault::DuplicateLabel { label: label("num") })
    );
    assert_eq!(unit.get_data_len(), 13);
    assert_eq!(unit.find(&label("num")), Some(0));
}

#[test]
fn declarations_beyond_capacity_are_refused() {
    let mut data = Vec::new();
    for index in 0..256 {
        data.push((format!("d{}", index), Data::Dword(index)));
    }
    let full = MemoryUnit::new(data.clone(), vec![], vec![]).unwrap();
    assert_eq!(full.get_data_len(), 1024);
    assert_eq!(full.get_mem_capacity(), 0);

    data.push((label("one_more"), Data::Byte(1)));
    let over = MemoryUnit::new(data, vec![], vec![]);
    assert_eq!(over.err(), Some(Fault::CapacityExhausted));
}

#[test]
fn store_label_data_appends_a_cell() {
    let mut unit = sample_unit();
    assert_eq!(unit.store_label_data(label("extra"), Data::Word(0xBEEF), Section::Data), Ok(()));
    assert_eq!(unit.find(&label("extra")), Some(5));
    assert_eq!(unit.symbol(5).offset, 13);
    assert_eq!(unit.get_data_len(), 15);
    assert_eq!(unit.get_mem_capacity(), 1024 - 15);
    assert_eq!(unit.load(&label("extra")), Ok(Data::Word(0xBEEF)));
}

#[test]
fn read_data_returns_the_range() {
    let unit = sample_unit();
    assert_eq!(unit.read_data(Data::Dword(0x0002_0000)), Ok(vec![10, 0]));
    assert_eq!(unit.read_data(Data::Dword(0x0004_0003)), Ok(vec![4, 3, 2, 1]));
    assert_eq!(unit.read_data(Data::Dword(0x0000_0005)), Ok(vec![]));
    assert_eq!(unit.read_data(Data::Word(5)), Ok(vec![]));
}

#[test]
fn read_data_beyond_the_stored_bytes_is_out_of_bounds() {
    let unit = sample_unit();
    assert_eq!(
        unit.read_data(Address { offset: 12, length: 2 }.encode()),
        Err(Fault::OutOfBounds)
    );
    assert_eq!(
        unit.read_data(Address { offset: 1023, length: 1 }.encode()),
        Err(Fault::OutOfBounds)
    );
    assert_eq!(unit.read_data(Address { offset: 12, length: 1 }.encode()), Ok(vec![0]));
}

#[test]
fn read_data_beyond_the_capacity_is_refused() {
    let unit = sample_unit();
    assert_eq!(
        unit.read_data(Address { offset: 1023, length: 2 }.encode()),
        Err(Fault::CapacityExhausted)
    );
    assert_eq!(
        unit.read_data(Address { offset: 0xFFFF, length: 0xFFFF }.encode()),
        Err(Fault::CapacityExhausted)
    );
}

#[test]
fn write_data_overwrites_in_place() {
    let mut unit = sample_unit();
    assert_eq!(unit.write_data(Data::Dword(0x0002_0000), vec![0xCD, 0xAB]), Ok(()));
    assert_eq!(unit.load(&label("num")), Ok(Data::Word(0xABCD)));
    assert_eq!(unit.get_data_len(), 13);
    assert_eq!(unit.get_mem_capacity(), 1024 - 13);
    assert_eq!(
        unit.read_data(Address { offset: 0, length: 13 }.encode()),
        Ok(vec![0xCD, 0xAB, 0x7F, 4, 3, 2, 1, 0, 0, 0, 0, 0, 0])
    );
}

#[test]
fn write_data_zero_fills_a_short_write() {
    let mut unit = sample_unit();
    assert_eq!(unit.write_data(Data::Dword(0x0004_0003), vec![0xEE]), Ok(()));
    assert_eq!(unit.read_data(Data::Dword(0x0004_0003)), Ok(vec![0xEE, 0, 0, 0]));
    assert_eq!(unit.load(&label("flag")), Ok(Data::Byte(0x7F)));
}

#[test]
fn write_data_cuts_a_long_write() {
    let mut unit = sample_unit();
    assert_eq!(unit.write_data(Data::Dword(0x0001_0002), vec![1, 2, 3, 4]), Ok(()));
    assert_eq!(unit.load(&label("flag")), Ok(Data::Byte(1)));
    assert_eq!(unit.load(&label("total")), Ok(Data::Dword(0x0102_0304)));
}

#[test]
fn write_data_extends_the_store() {
    let mut unit = sample_unit();
    assert_eq!(
        unit.write_data(Address { offset: 16, length: 3 }.encode(), vec![7, 8, 9]),
        Ok(())
    );
    assert_eq!(unit.get_data_len(), 19);
    assert_eq!(unit.get_mem_capacity(), 1024 - 19);
    assert_eq!(
        unit.read_data(Address { offset: 13, length: 6 }.encode()),
        Ok(vec![0, 0, 0, 7, 8, 9])
    );
    assert_eq!(unit.load(&label("num")), Ok(Data::Word(10)));
}

#[test]
fn write_data_straddling_the_end_extends_the_store() {
    let mut unit = sample_unit();
    assert_eq!(
        unit.write_data(Address { offset: 11, length: 4 }.encode(), vec![1, 2, 3, 4]),
        Ok(())
    );
    assert_eq!(unit.get_data_len(), 15);
    assert_eq!(
        unit.read_data(Address { offset: 9, length: 6 }.encode()),
        Ok(vec![0, 0, 1, 2, 3, 4])
    );
}

#[test]
fn write_data_beyond_the_capacity_changes_nothing() {
    let mut unit = sample_unit();
    assert_eq!(
        unit.write_data(Address { offset: 1022, length: 3 }.encode(), vec![1, 2, 3]),
        Err(Fault::CapacityExhausted)
    );
    assert_eq!(unit.get_data_len(), 13);
    assert_eq!(unit.get_mem_capacity(), 1024 - 13);
    assert_eq!(
        unit.write_data(Address { offset: 1020, length: 4 }.encode(), vec![1, 2, 3, 4]),
        Ok(())
    );
    assert_eq!(unit.get_data_len(), 1024);
    assert_eq!(unit.get_mem_capacity(), 0);
    assert_eq!(
        unit.write_data(Address { offset: 1024, length: 1 }.encode(), vec![1]),
        Err(Fault::CapacityExhausted)
    );
    assert_eq!(unit.write_data(Data::Dword(0x0001_0002), vec![0x11]), Ok(()));
    assert_eq!(unit.load(&label("flag")), Ok(Data::Byte(0x11)));
}

#[test]
fn written_bytes_make_a_zero_cell_readable() {
    let mut unit = sample_unit();
    assert!(!unit.is_readable(3));
    assert_eq!(unit.write_data(Data::Dword(0x0002_0007), vec![5, 0]), Ok(()));
    assert!(unit.is_readable(3));
    assert_eq!(unit.load(&label("result")), Ok(Data::Word(5)));
}

#[test]
fn program_is_kept_in_order() {
    let code = vec![
        Instruction::new(
            IS::Mov,
            vec![Operand::Register(Register::AX), Operand::Immediate(Data::Word(1))],
        ),
        Instruction::new(IS::Syscall, vec![]),
    ];
    let unit = MemoryUnit::new(vec![], vec![], code.clone()).unwrap();
    assert_eq!(unit.code_len(), 2);
    assert_eq!(unit.instruction(0), code[0]);
    assert_eq!(unit.instruction(1), code[1]);
}

#[test]
fn write_data_marks_the_cells_it_covers() {
    let mut unit = sample_unit();
    assert_eq!(
        unit.write_data(Address { offset: 2, length: 7 }.encode(), vec![0; 7]),
        Ok(())
    );
    let written: Vec<bool> = (0..5).map(|index| unit.symbol(index).written).collect();
    assert_eq!(written, vec![false, true, true, true, false]);
    assert_eq!(unit.load(&label("result")), Ok(Data::Word(0)));
    assert_eq!(unit.load(&label("total")), Ok(Data::Dword(0)));
    assert_eq!(unit.load(&label("flag")), Ok(Data::Byte(0)));
}

#[test]
fn write_data_over_part_of_a_cell_leaves_it_unmarked() {
    let mut unit = sample_unit();
    assert_eq!(unit.write_data(Address { offset: 8, length: 3 }.encode(), vec![0; 3]), Ok(()));
    assert!(!unit.symbol(3).written);
    assert!(!unit.symbol(4).written);
    assert_eq!(
        unit.load(&label("result")),
        Err(Fault::UninitializedMemory { label: label("result") })
    );
    assert_eq!(unit.write_data(Address { offset: 5, length: 0 }.encode(), vec![1]), Ok(()));
    assert!(!unit.symbol(2).written);
}

#[test]
fn refused_write_marks_nothing() {
    let mut unit = sample_unit();
    assert_eq!(
        unit.write_data(Address { offset: 0, length: 2000 }.encode(), vec![0; 2000]),
        Err(Fault::CapacityExhausted)
    );
    for index in 0..5 {
        assert!(!unit.symbol(index).written);
    }
}
