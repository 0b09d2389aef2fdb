use std::collections::HashMap;
use veh::address::{Address, AddressWidth};
use veh::module_list::{
    decode_units, get_module_handle, module_name_matches, MemoryRead, ModuleWalk, WalkState,
};

/// A process made up for the tests: bytes at addresses, zero where nothing
/// was written.
struct Process {
    width: AddressWidth,
    bytes: HashMap<u64, u8>,
    reads: Vec<MemoryRead>,
}

impl Process {
    fn new(width: AddressWidth) -> Process {
        Process { width, bytes: HashMap::new(), reads: Vec::new() }
    }

    fn at(&self, value: u64) -> Address {
        Address::new(self.width, value).unwrap()
    }

    fn write(&mut self, at: u64, what: &[u8]) {
        for (k, byte) in what.iter().enumerate() {
            self.bytes.insert(at + k as u64, *byte);
        }
    }

    fn write_pointer(&mut self, at: u64, pointer: u64) {
        match self.width {
            AddressWidth::Narrow => self.write(at, &(pointer as u32).to_le_bytes()),
            AddressWidth::Wide => self.write(at, &pointer.to_le_bytes()),
        }
    }

    fn read(&mut self, read: MemoryRead) -> Vec<u8> {
        self.reads.push(read);
        let start = read.address.value();
        (0..read.length as u64).map(|k| *self.bytes.get(&(start + k)).unwrap_or(&0)).collect()
    }

    /// Lays out the process block, the loader data and one record per
    /// module, linked in a circle through the list head. Returns the address
    /// of the process block.
    fn load(&mut self, modules: &[(&str, u64)]) -> Address {
        let layout = self.width.layout();
        let block = 0x10_0000u64;
        let loader = 0x20_0000u64;
        let head = loader + layout.modules as u64;
        self.write_pointer(block + layout.loader as u64, loader);
        let node = |k: usize| 0x30_0000u64 + 0x1000 * k as u64;
        let mut link = head;
        for (k, (name, base)) in modules.iter().enumerate() {
            self.write_pointer(link, node(k));
            link = node(k);
            let units: Vec<u16> = name.encode_utf16().collect();
            let buffer = node(k) + 0x800;
            for (j, unit) in units.iter().enumerate() {
                self.write(buffer + 2 * j as u64, &unit.to_le_bytes());
            }
            self.write_pointer(node(k) + layout.base as u64, *base);
            let descriptor = node(k) + layout.name as u64;
            self.write(descriptor, &((2 * units.len()) as u16).to_le_bytes());
            self.write(descriptor + 2, &((2 * units.len() + 2) as u16).to_le_bytes());
            self.write_pointer(descriptor + layout.buffer as u64, buffer);
        }
        self.write_pointer(link, head);
        self.at(block)
    }

    fn find(&mut self, name: &str, block: Address) -> Option<Address> {
        let mut walk = get_module_handle(name, block);
        for _ in 0..10_000 {
            match walk.request() {
                Some(read) => {
                    let reply = self.read(read);
                    walk.supply(&reply);
                },
                None => return walk.outcome().unwrap(),
            }
        }
        panic!("the walk did not end");
    }
}

const MODULES: [(&str, u64); 3] = [
    ("ntdll.dll", 0x7FF0_0000),
    ("KERNEL32.DLL", 0x7FE0_0000),
    ("KernelBase.dll", 0x7FD0_0000),
];

#[test]
fn finds_the_first_module_wide() {
    let mut process = Process::new(AddressWidth::Wide);
    let block = process.load(&MODULES);
    assert_eq!(process.find("ntdll.dll", block), Some(Address::Wide(0x7FF0_0000)));
}

#[test]
fn finds_the_last_module_wide() {
    let mut process = Process::new(AddressWidth::Wide);
    let block = process.load(&MODULES);
    assert_eq!(process.find("kernelbase.dll", block), Some(Address::Wide(0x7FD0_0000)));
}

#[test]
fn finds_modules_narrow() {
    let mut process = Process::new(AddressWidth::Narrow);
    let block = process.load(&MODULES);
    assert_eq!(process.find("ntdll.dll", block), Some(Address::Narrow(0x7FF0_0000)));
    assert_eq!(process.find("kernel32.dll", block), Some(Address::Narrow(0x7FE0_0000)));
    assert_eq!(process.find("KERNELBASE.DLL", block), Some(Address::Narrow(0x7FD0_0000)));
}

#[test]
fn the_case_of_the_name_does_not_matter() {
    let mut process = Process::new(AddressWidth::Wide);
    let block = process.load(&MODULES);
    for name in ["NTDLL.DLL", "ntdll.dll", "NtDll.Dll", "nTdLL.dLL"] {
        assert_eq!(process.find(name, block), Some(Address::Wide(0x7FF0_0000)));
    }
    for name in ["kernel32.dll", "Kernel32.DLL"] {
        assert_eq!(process.find(name, block), Some(Address::Wide(0x7FE0_0000)));
    }
}

#[test]
fn a_name_that_no_module_has_is_not_found() {
    let mut process = Process::new(AddressWidth::Wide);
    let block = process.load(&MODULES);
    assert_eq!(process.find("user32.dll", block), None);
    assert_eq!(process.find("ntdll", block), None);
    assert_eq!(process.find("ntdll.dll ", block), None);
    assert_eq!(process.find("", block), None);
    let mut narrow = Process::new(AddressWidth::Narrow);
    let block = narrow.load(&MODULES);
    assert_eq!(narrow.find("user32.dll", block), None);
}

#[test]
fn an_empty_list_holds_nothing() {
    let mut process = Process::new(AddressWidth::Wide);
    let block = process.load(&[]);
    assert_eq!(process.find("ntdll.dll", block), None);
    assert_eq!(process.reads.len(), 2);
}

#[test]
fn of_two_modules_with_one_name_the_first_is_found() {
    let mut process = Process::new(AddressWidth::Wide);
    let block = process.load(&[("a.dll", 0x1000), ("B.DLL", 0x2000), ("b.dll", 0x3000)]);
    assert_eq!(process.find("b.dll", block), Some(Address::Wide(0x2000)));
}

#[test]
fn a_module_with_an_empty_name_is_found_by_the_empty_name() {
    let mut process = Process::new(AddressWidth::Wide);
    let block = process.load(&[("a.dll", 0x1000), ("", 0x2000)]);
    assert_eq!(process.find("", block), Some(Address::Wide(0x2000)));
}

#[test]
fn names_beyond_ascii_are_compared_in_upper_case() {
    let mut process = Process::new(AddressWidth::Wide);
    let block = process.load(&[("größe.dll", 0x1000), ("ÉCOLE.DLL", 0x2000)]);
    assert_eq!(process.find("école.dll", block), Some(Address::Wide(0x2000)));
    assert_eq!(process.find("GRÖSSE.DLL", block), Some(Address::Wide(0x1000)));
}

#[test]
fn the_walk_reads_what_the_layout_says() {
    let mut process = Process::new(AddressWidth::Wide);
    let block = process.load(&MODULES);
    assert_eq!(process.find("kernel32.dll", block), Some(Address::Wide(0x7FE0_0000)));
    let wide = |value: u64, length: usize| MemoryRead { address: Address::Wide(value), length };
    assert_eq!(
        process.reads,
        vec![
            wide(0x10_0018, 8),
            wide(0x20_0030, 8),
            wide(0x30_0038, 16),
            wide(0x30_0800, 18),
            wide(0x30_0000, 8),
            wide(0x30_1038, 16),
            wide(0x30_1800, 24),
            wide(0x30_1010, 8),
        ]
    );
}

#[test]
fn the_narrow_walk_reads_what_the_layout_says() {
    let mut process = Process::new(AddressWidth::Narrow);
    let block = process.load(&MODULES);
    assert_eq!(process.find("ntdll.dll", block), Some(Address::Narrow(0x7FF0_0000)));
    let narrow = |value: u32, length: usize| MemoryRead { address: Address::Narrow(value), length };
    assert_eq!(
        process.reads,
        vec![
            narrow(0x10_000C, 4),
            narrow(0x20_001C, 4),
            narrow(0x30_001C, 8),
            narrow(0x30_0800, 18),
            narrow(0x30_0008, 4),
        ]
    );
}

#[test]
fn a_walk_starts_by_asking_for_the_loader_pointer() {
    let walk = get_module_handle("ntdll.dll", Address::Wide(0x7000));
    assert_eq!(walk.state, WalkState::Loader { process: Address::Wide(0x7000) });
    assert_eq!(walk.target, "NTDLL.DLL");
    assert_eq!(walk.request(), Some(MemoryRead { address: Address::Wide(0x7018), length: 8 }));
    assert_eq!(walk.outcome(), None);
    let narrow = get_module_handle("ntdll.dll", Address::Narrow(0x7000));
    assert_eq!(narrow.request(), Some(MemoryRead { address: Address::Narrow(0x700C), length: 4 }));
}

#[test]
fn a_walk_that_has_ended_stays_ended() {
    let found = WalkState::Found(Address::Wide(0x5000));
    assert_eq!(found.request(), None);
    assert_eq!(found.resume(&String::from("X"), &[1, 2, 3, 4, 5, 6, 7, 8]), found);
    assert_eq!(WalkState::NotFound.request(), None);
    assert_eq!(WalkState::NotFound.resume(&String::from("X"), &[]), WalkState::NotFound);
    let mut walk = ModuleWalk { target: String::from("X"), state: found };
    walk.supply(&[0; 8]);
    assert_eq!(walk.outcome(), Some(Some(Address::Wide(0x5000))));
    let mut missing = ModuleWalk { target: String::from("X"), state: WalkState::NotFound };
    missing.supply(&[0; 8]);
    assert_eq!(missing.outcome(), Some(None));
}

#[test]
fn a_reply_of_the_wrong_length_ends_the_walk() {
    let target = String::from("NTDLL.DLL");
    let head = Address::Wide(0x20_0030);
    let node = Address::Wide(0x30_0000);
    let states = [
        WalkState::Loader { process: Address::Wide(0x10_0000) },
        WalkState::Link { head, at: head },
        WalkState::Descriptor { head, node },
        WalkState::Name { head, node, buffer: Address::Wide(0x30_0800), units: 9 },
        WalkState::Base { head, node },
    ];
    for state in states {
        let length = state.request().unwrap().length;
        assert_eq!(state.resume(&target, &vec![0; length - 1]), WalkState::NotFound);
        assert_eq!(state.resume(&target, &vec![0; length + 1]), WalkState::NotFound);
        assert_ne!(state.resume(&target, &vec![0x11; length]), state);
    }
}

#[test]
fn a_link_back_to_the_head_ends_the_walk() {
    let head = Address::Wide(0x20_0030);
    let state = WalkState::Link { head, at: Address::Wide(0x30_0000) };
    let reply = 0x20_0030u64.to_le_bytes();
    assert_eq!(state.resume(&String::from("X"), &reply), WalkState::NotFound);
}

#[test]
fn a_link_leads_to_the_descriptor_of_the_next_record() {
    let head = Address::Narrow(0x20_001C);
    let state = WalkState::Link { head, at: head };
    let reply = 0x30_0000u32.to_le_bytes();
    let next = state.resume(&String::from("X"), &reply);
    assert_eq!(next, WalkState::Descriptor { head, node: Address::Narrow(0x30_0000) });
    assert_eq!(next.request(), Some(MemoryRead { address: Address::Narrow(0x30_001C), length: 8 }));
}

#[test]
fn a_record_whose_name_would_stand_at_null_is_passed_over() {
    let head = Address::Wide(0x20_0030);
    let state = WalkState::Link { head, at: head };
    let node = 0u64.wrapping_sub(56);
    let next = state.resume(&String::from("X"), &node.to_le_bytes());
    assert_eq!(next, WalkState::Link { head, at: Address::Wide(node) });
    let narrow_head = Address::Narrow(0x20_001C);
    let narrow = WalkState::Link { head: narrow_head, at: narrow_head };
    let narrow_node = 0u32.wrapping_sub(28);
    assert_eq!(
        narrow.resume(&String::from("X"), &narrow_node.to_le_bytes()),
        WalkState::Link { head: narrow_head, at: Address::Narrow(narrow_node) }
    );
}

#[test]
fn the_descriptor_gives_half_its_byte_length_as_units() {
    let head = Address::Wide(0x20_0030);
    let node = Address::Wide(0x30_0000);
    let state = WalkState::Descriptor { head, node };
    let mut reply = vec![0u8; 16];
    reply[0..2].copy_from_slice(&19u16.to_le_bytes());
    reply[2..4].copy_from_slice(&20u16.to_le_bytes());
    reply[8..16].copy_from_slice(&0x30_0800u64.to_le_bytes());
    let next = state.resume(&String::from("X"), &reply);
    assert_eq!(next, WalkState::Name { head, node, buffer: Address::Wide(0x30_0800), units: 9 });
    assert_eq!(next.request(), Some(MemoryRead { address: Address::Wide(0x30_0800), length: 18 }));
    let mut narrow_reply = vec![0u8; 8];
    narrow_reply[0..2].copy_from_slice(&0xFFFFu16.to_le_bytes());
    narrow_reply[4..8].copy_from_slice(&0x30_0800u32.to_le_bytes());
    let narrow = WalkState::Descriptor { head: Address::Narrow(1), node: Address::Narrow(2) };
    let narrow_next = narrow.resume(&String::from("X"), &narrow_reply);
    assert_eq!(
        narrow_next,
        WalkState::Name {
            head: Address::Narrow(1),
            node: Address::Narrow(2),
            buffer: Address::Narrow(0x30_0800),
            units: 0x7FFF,
        }
    );
    assert_eq!(narrow_next.request().unwrap().length, 0xFFFE);
}

#[test]
fn after_the_name_comes_the_base_or_the_next_link() {
    let head = Address::Wide(0x20_0030);
    let node = Address::Wide(0x30_0000);
    let state = WalkState::Name { head, node, buffer: Address::Wide(0x30_0800), units: 1 };
    assert_eq!(state.resume_after_name(true), WalkState::Base { head, node });
    assert_eq!(state.resume_after_name(false), WalkState::Link { head, at: node });
    let link = WalkState::Link { head, at: node };
    assert_eq!(link.resume_after_name(true), link);
    assert_eq!(WalkState::NotFound.resume_after_name(true), WalkState::NotFound);
    let reply = [b'a', 0];
    assert_eq!(state.resume(&String::from("A"), &reply), WalkState::Base { head, node });
    assert_eq!(state.resume(&String::from("a"), &reply), WalkState::Link { head, at: node });
    assert_eq!(state.resume(&String::from("B"), &reply), WalkState::Link { head, at: node });
}

#[test]
fn the_base_reply_ends_the_walk_with_the_base() {
    let head = Address::Wide(0x20_0030);
    let node = Address::Wide(0x30_0000);
    let state = WalkState::Base { head, node };
    assert_eq!(state.request(), Some(MemoryRead { address: Address::Wide(0x30_0010), length: 8 }));
    assert_eq!(
        state.resume(&String::from("X"), &0x7FFA_0000_0000u64.to_le_bytes()),
        WalkState::Found(Address::Wide(0x7FFA_0000_0000))
    );
}

#[test]
fn decode_units_pairs_bytes_little_endian() {
    assert_eq!(decode_units(&[]), Vec::<u16>::new());
    assert_eq!(decode_units(&[0x41, 0x00]), vec![0x0041]);
    assert_eq!(decode_units(&[0x34, 0x12, 0xFF, 0xFE]), vec![0x1234, 0xFEFF]);
    assert_eq!(decode_units(&[0x34, 0x12, 0xFF]), vec![0x1234]);
    assert_eq!(decode_units(&[0x34]), Vec::<u16>::new());
}

#[test]
fn module_name_matches_upper_cases_the_stored_name_only() {
    let stored: Vec<u16> = "ntdll.dll".encode_utf16().collect();
    assert!(module_name_matches(&stored, &String::from("NTDLL.DLL")));
    assert!(!module_name_matches(&stored, &String::from("ntdll.dll")));
    assert!(!module_name_matches(&stored, &String::from("NTDLL.DL")));
    assert!(module_name_matches(&[], &String::new()));
}

#[test]
fn module_name_matches_decodes_surrogate_pairs() {
    let stored: Vec<u16> = "a\u{1F600}b".encode_utf16().collect();
    assert_eq!(stored.len(), 4);
    assert!(module_name_matches(&stored, &String::from("A\u{1F600}B")));
}

#[test]
fn module_name_matches_replaces_lone_surrogates() {
    let stored = [0x0061u16, 0xD800, 0x0062];
    assert!(module_name_matches(&stored, &String::from("A\u{FFFD}B")));
    let other = [0x0061u16, 0xDC00, 0x0062];
    assert!(module_name_matches(&other, &String::from("A\u{FFFD}B")));
}
