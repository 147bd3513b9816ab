//! Loading an ELF image: the executable sections go into memory, and the
//! symbols `pass` and `fail` give the two addresses that end a run.

use vstd::prelude::*;
use vstd::string::StringExecFns;
use crate::memory::{overlay, OutOfMemory};
use crate::state::{CoreState, Machine, MEMORY_SIZE};

verus! {

/// A symbol of an image: its name and its value.
#[derive(Debug, PartialEq, Eq)]
pub struct Symbol {
    pub name: String,
    pub value: u64,
}

impl View for Symbol {
    type V = (Seq<char>, u64);

    open spec fn view(&self) -> (Seq<char>, u64) {
        (self.name@, self.value)
    }
}

/// The two addresses that end a run.
#[derive(Debug, Clone, Copy, PartialEq, Eq)]
pub struct Targets {
    pub pass_pc: u32,
    pub fail_pc: u32,
}

/// Why an image cannot be loaded.
#[derive(Debug, Clone, Copy, PartialEq, Eq)]
pub enum ImageError {
    /// The bytes are no ELF object, or one without a section header table.
    Malformed,
    /// The bytes of an executable section cannot be read.
    SectionData,
    /// The image has no symbol table, or a symbol whose name cannot be
    /// read.
    SymbolTable,
    /// An executable section is larger than memory.
    TooLarge,
}

/// The number of section headers of the ELF object `image`; `None` where
/// the bytes do not parse as an ELF object or it has no section header
/// table.
pub uninterp spec fn elf_section_count(image: Seq<u8>) -> Option<nat>;

/// The flags of section header `index` of the ELF object `image`.
pub uninterp spec fn elf_section_flags(image: Seq<u8>, index: nat) -> Option<u64>;

/// The bytes of section `index` of the ELF object `image`.
pub uninterp spec fn elf_section_data(image: Seq<u8>, index: nat) -> Option<Seq<u8>>;

/// The number of entries of the symbol table of the ELF object `image`;
/// `None` where it has none.
pub uninterp spec fn elf_symbol_count(image: Seq<u8>) -> Option<nat>;

/// The name and the value of entry `index` of the symbol table of the ELF
/// object `image`.
pub uninterp spec fn elf_symbol(image: Seq<u8>, index: nat) -> Option<(Seq<char>, u64)>;

/// Parses `image` with `elf::ElfBytes::minimal_parse`, takes its table from
/// `section_headers` and returns the table's `len`. The result is a
/// function of the bytes, which the contract names; `None` stands for a
/// parse error and for an object without section headers.
#[verifier::external_body]
fn section_count(image: &[u8]) -> (count: Option<usize>)
    ensures
        match count {
            Some(n) => elf_section_count(image@) == Some(n as nat),
            None => elf_section_count(image@) is None,
        },
{
    let elf = elf::ElfBytes::<elf::endian::AnyEndian>::minimal_parse(image).ok()?;
    Some(elf.section_headers()?.len())
}

/// Parses `image` as `section_count` does, reads header `index` with the
/// table's `get` and returns its field `sh_flags`. The result is a function
/// of the bytes and the index, which the contract names; `None` stands for
/// any error on the way.
#[verifier::external_body]
fn section_flags(image: &[u8], index: usize) -> (flags: Option<u64>)
    ensures
        flags == elf_section_flags(image@, index as nat),
{
    let elf = elf::ElfBytes::<elf::endian::AnyEndian>::minimal_parse(image).ok()?;
    Some(elf.section_headers()?.get(index).ok()?.sh_flags)
}

/// Parses `image` as `section_count` does, reads header `index` with the
/// table's `get` and returns a copy of the bytes that
/// `elf::ElfBytes::section_data` gives for it. The result is a function of
/// the bytes and the index, which the contract names; `None` stands for any
/// error on the way.
#[verifier::external_body]
fn section_data(image: &[u8], index: usize) -> (data: Option<Vec<u8>>)
    ensures
        match data {
            Some(bytes) => elf_section_data(image@, index as nat) == Some(bytes@),
            None => elf_section_data(image@, index as nat) is None,
        },
{
    let elf = elf::ElfBytes::<elf::endian::AnyEndian>::minimal_parse(image).ok()?;
    let header = elf.section_headers()?.get(index).ok()?;
    Some(elf.section_data(&header).ok()?.0.to_vec())
}

/// Parses `image` with `elf::ElfBytes::minimal_parse`, takes the symbol
/// table from `symbol_table` and returns its `len`. The result is a
/// function of the bytes, which the contract names; `None` stands for any
/// error on the way and for an object without a symbol table.
#[verifier::external_body]
fn symbol_count(image: &[u8]) -> (count: Option<usize>)
    ensures
        match count {
            Some(n) => elf_symbol_count(image@) == Some(n as nat),
            None => elf_symbol_count(image@) is None,
        },
{
    let elf = elf::ElfBytes::<elf::endian::AnyEndian>::minimal_parse(image).ok()?;
    Some(elf.symbol_table().ok()??.0.len())
}

/// Parses `image` as `symbol_count` does, reads entry `index` with the
/// symbol table's `get` and its name with the string table's `get` at
/// `st_name`, and returns the name with `st_value`. The result is a
/// function of the bytes and the index, which the contract names; `None`
/// stands for any error on the way.
#[verifier::external_body]
fn symbol(image: &[u8], index: usize) -> (symbol: Option<Symbol>)
    ensures
        match symbol {
            Some(s) => elf_symbol(image@, index as nat) == Some(s@),
            None => elf_symbol(image@, index as nat) is None,
        },
{
    let elf = elf::ElfBytes::<elf::endian::AnyEndian>::minimal_parse(image).ok()?;
    let (symbols, strings) = elf.symbol_table().ok()??;
    let entry = symbols.get(index).ok()?;
    let name = strings.get(entry.st_name as usize).ok()?;
    Some(Symbol { name: name.to_string(), value: entry.st_value })
}

/// Whether section flags mark a section as executable: bit 2,
/// `SHF_EXECINSTR`, is set.
pub open spec fn executable(flags: u64) -> bool {
    (flags / 4) % 2 == 1
}

proof fn lemma_executable_bit(flags: u64)
    by (bit_vector)
    ensures
        (flags & 4 != 0) == ((flags / 4) % 2 == 1),
{
}

/// Whether section flags mark a section as executable.
pub fn is_executable(flags: u64) -> (yes: bool)
    ensures
        yes == executable(flags),
{
    proof {
        lemma_executable_bit(flags);
    }
    flags & 4 != 0
}

/// The name `pass`.
pub open spec fn pass_name() -> Seq<char> {
    seq!['p', 'a', 's', 's']
}

/// The name `fail`.
pub open spec fn fail_name() -> Seq<char> {
    seq!['f', 'a', 'i', 'l']
}

/// The low 32 bits of the value of the last symbol called `name`; 0 where
/// no symbol has that name.
pub open spec fn address_of(symbols: Seq<(Seq<char>, u64)>, name: Seq<char>) -> u32
    decreases symbols.len(),
{
    if symbols.len() == 0 {
        0
    } else if symbols.last().0 == name {
        (symbols.last().1 % 0x1_0000_0000) as u32
    } else {
        address_of(symbols.drop_last(), name)
    }
}

/// The targets that the symbols `pass` and `fail` give; `None` where one of
/// the two addresses is 0.
pub open spec fn spec_targets(symbols: Seq<(Seq<char>, u64)>) -> Option<Targets> {
    let pass_pc = address_of(symbols, pass_name());
    let fail_pc = address_of(symbols, fail_name());
    if pass_pc == 0 || fail_pc == 0 {
        None
    } else {
        Some(Targets { pass_pc, fail_pc })
    }
}

/// The names and values of `symbols`.
pub open spec fn symbol_views(symbols: Seq<Symbol>) -> Seq<(Seq<char>, u64)> {
    symbols.map_values(|s: Symbol| s@)
}

/// The contents of `chunks`.
pub open spec fn chunk_views(chunks: Seq<Vec<u8>>) -> Seq<Seq<u8>> {
    chunks.map_values(|c: Vec<u8>| c@)
}

/// Finds the pass and fail addresses among `symbols`: the values of the
/// symbols `pass` and `fail`, cut to 32 bits. Where a name occurs more than
/// once its last occurrence counts; an address of 0 counts as missing.
pub fn find_targets(symbols: &Vec<Symbol>) -> (targets: Option<Targets>)
    ensures
        targets == spec_targets(symbol_views(symbols@)),
{
    proof {
        reveal_strlit("pass");
        reveal_strlit("fail");
    }
    let pass = String::from_str("pass");
    let fail = String::from_str("fail");
    assert(pass@ =~= pass_name());
    assert(fail@ =~= fail_name());
    let ghost all = symbol_views(symbols@);
    let mut pass_pc: u32 = 0;
    let mut fail_pc: u32 = 0;
    let mut i: usize = 0;
    while i < symbols.len()
        invariant
            i <= symbols@.len(),
            all == symbol_views(symbols@),
            pass@ == pass_name(),
            fail@ == fail_name(),
            pass_pc == address_of(all.take(i as int), pass_name()),
            fail_pc == address_of(all.take(i as int), fail_name()),
        decreases symbols@.len() - i,
    {
        proof {
            assert(all.take(i + 1).drop_last() =~= all.take(i as int));
            assert(all.take(i + 1).last() == symbols@[i as int]@);
        }
        if symbols[i].name == pass {
            pass_pc = (symbols[i].value % 0x1_0000_0000) as u32;
        }
        if symbols[i].name == fail {
            fail_pc = (symbols[i].value % 0x1_0000_0000) as u32;
        }
        i += 1;
    }
    assert(all.take(i as int) =~= all);
    if pass_pc == 0 || fail_pc == 0 {
        None
    } else {
        Some(Targets { pass_pc, fail_pc })
    }
}

/// `memory` after each of `chunks` in turn is copied over it from address 0
/// on.
pub open spec fn place(memory: Seq<u8>, chunks: Seq<Seq<u8>>) -> Seq<u8>
    decreases chunks.len(),
{
    if chunks.len() == 0 {
        memory
    } else {
        overlay(place(memory, chunks.drop_last()), 0, chunks.last())
    }
}

/// Whether each of `chunks` fits into memory.
pub open spec fn all_fit(chunks: Seq<Seq<u8>>) -> bool {
    forall|i: int| 0 <= i < chunks.len() ==> (#[trigger] chunks[i]).len() <= MEMORY_SIZE
}

impl CoreState {
    /// Copies each of `sections` in turn into memory from address 0 on.
    /// Where one of them is larger than memory nothing is copied.
    pub fn load_sections(&mut self, sections: &Vec<Vec<u8>>) -> (done: Result<(), OutOfMemory>)
        ensures
            done is Ok <==> all_fit(chunk_views(sections@)),
            final(self)@ == (if done is Ok {
                Machine { memory: place(old(self)@.memory, chunk_views(sections@)), ..old(self)@ }
            } else {
                old(self)@
            }),
            final(self)@.wf(),
    {
        proof {
            use_type_invariant(&*self);
        }
        let ghost chunks = chunk_views(sections@);
        let mut i: usize = 0;
        while i < sections.len()
            invariant
                i <= sections@.len(),
                chunks == chunk_views(sections@),
                self@ == old(self)@,
                self@.wf(),
                forall|j: int| 0 <= j < i ==> (#[trigger] chunks[j]).len() <= MEMORY_SIZE,
            decreases sections@.len() - i,
        {
            if sections[i].len() > MEMORY_SIZE {
                assert(chunks[i as int].len() > MEMORY_SIZE);
                return Err(OutOfMemory);
            }
            i += 1;
        }
        let mut i: usize = 0;
        while i < sections.len()
            invariant
                i <= sections@.len(),
                chunks == chunk_views(sections@),
                all_fit(chunks),
                self@.wf(),
                self@ == (Machine {
                    memory: place(old(self)@.memory, chunks.take(i as int)),
                    ..old(self)@
                }),
            decreases sections@.len() - i,
        {
            proof {
                assert(chunks.take(i + 1).drop_last() =~= chunks.take(i as int));
                assert(chunks.take(i + 1).last() == sections@[i as int]@);
                assert(chunks[i as int].len() <= MEMORY_SIZE);
            }
            let done = self.load_bytes(0, sections[i].as_slice());
            i += 1;
        }
        assert(chunks.take(i as int) =~= chunks);
        Ok(())
    }
}

/// The bytes of the executable sections among the first `count` sections
/// of `image`, in the order of the section headers.
pub open spec fn executable_sections(image: Seq<u8>, count: nat) -> Result<
    Seq<Seq<u8>>,
    ImageError,
>
    decreases count,
{
    if count == 0 {
        Ok(Seq::empty())
    } else {
        let index = (count - 1) as nat;
        match executable_sections(image, index) {
            Err(e) => Err(e),
            Ok(chunks) => match elf_section_flags(image, index) {
                None => Err(ImageError::Malformed),
                Some(flags) => if !executable(flags) {
                    Ok(chunks)
                } else {
                    match elf_section_data(image, index) {
                        None => Err(ImageError::SectionData),
                        Some(data) => Ok(chunks.push(data)),
                    }
                },
            },
        }
    }
}

/// The first `count` entries of the symbol table of `image`.
pub open spec fn symbols_of(image: Seq<u8>, count: nat) -> Result<
    Seq<(Seq<char>, u64)>,
    ImageError,
>
    decreases count,
{
    if count == 0 {
        Ok(Seq::empty())
    } else {
        let index = (count - 1) as nat;
        match symbols_of(image, index) {
            Err(e) => Err(e),
            Ok(symbols) => match elf_symbol(image, index) {
                None => Err(ImageError::SymbolTable),
                Some(symbol) => Ok(symbols.push(symbol)),
            },
        }
    }
}

/// What loading `image` makes of `machine`, with the targets that the
/// image names: the image must parse, the bytes of its executable sections
/// and all its symbols must be readable, and each executable section must
/// fit into memory.
pub open spec fn spec_load_elf(machine: Machine, image: Seq<u8>) -> Result<
    (Machine, Option<Targets>),
    ImageError,
> {
    match elf_section_count(image) {
        None => Err(ImageError::Malformed),
        Some(sections) => match executable_sections(image, sections) {
            Err(e) => Err(e),
            Ok(chunks) => match elf_symbol_count(image) {
                None => Err(ImageError::SymbolTable),
                Some(count) => match symbols_of(image, count) {
                    Err(e) => Err(e),
                    Ok(symbols) => if !all_fit(chunks) {
                        Err(ImageError::TooLarge)
                    } else {
                        Ok(
                            (
                                Machine { memory: place(machine.memory, chunks), ..machine },
                                spec_targets(symbols),
                            ),
                        )
                    },
                },
            },
        }
    }
}

/// Reads the executable sections of `image`.
pub fn read_sections(image: &[u8]) -> (sections: Result<Vec<Vec<u8>>, ImageError>)
    ensures
        match sections {
            Ok(chunks) => elf_section_count(image@) matches Some(n) && executable_sections(
                image@,
                n,
            ) == Ok::<Seq<Seq<u8>>, ImageError>(chunk_views(chunks@)),
            Err(e) => match elf_section_count(image@) {
                None => e == ImageError::Malformed,
                Some(n) => executable_sections(image@, n) == Err::<Seq<Seq<u8>>, ImageError>(e),
            },
        },
{
    let count = match section_count(image) {
        Some(count) => count,
        None => return Err(ImageError::Malformed),
    };
    let mut chunks: Vec<Vec<u8>> = Vec::new();
    let mut i: usize = 0;
    assert(chunk_views(chunks@) =~= Seq::<Seq<u8>>::empty());
    while i < count
        invariant
            i <= count,
            elf_section_count(image@) == Some(count as nat),
            executable_sections(image@, i as nat) == Ok::<Seq<Seq<u8>>, ImageError>(
                chunk_views(chunks@),
            ),
        ensures
            i == count,
        decreases count - i,
    {
        let flags = match section_flags(image, i) {
            Some(flags) => flags,
            None => {
                proof {
                    assert(executable_sections(image@, (i + 1) as nat) == Err::<
                        Seq<Seq<u8>>,
                        ImageError,
                    >(ImageError::Malformed));
                    lemma_sections_error(image@, (i + 1) as nat, count as nat);
                }
                return Err(ImageError::Malformed);
            },
        };
        if is_executable(flags) {
            let data = match section_data(image, i) {
                Some(data) => data,
                None => {
                    proof {
                        assert(executable_sections(image@, (i + 1) as nat) == Err::<
                            Seq<Seq<u8>>,
                            ImageError,
                        >(ImageError::SectionData));
                        lemma_sections_error(image@, (i + 1) as nat, count as nat);
                    }
                    return Err(ImageError::SectionData);
                },
            };
            let ghost before = chunk_views(chunks@);
            chunks.push(data);
            assert(chunk_views(chunks@) =~= before.push(data@));
        }
        i += 1;
    }
    Ok(chunks)
}

/// Reads the symbol table of `image`.
pub fn read_symbols(image: &[u8]) -> (symbols: Result<Vec<Symbol>, ImageError>)
    ensures
        match symbols {
            Ok(list) => elf_symbol_count(image@) matches Some(n) && symbols_of(image@, n) == Ok::<
                Seq<(Seq<char>, u64)>,
                ImageError,
            >(symbol_views(list@)),
            Err(e) => match elf_symbol_count(image@) {
                None => e == ImageError::SymbolTable,
                Some(n) => symbols_of(image@, n) == Err::<Seq<(Seq<char>, u64)>, ImageError>(e),
            },
        },
{
    let count = match symbol_count(image) {
        Some(count) => count,
        None => return Err(ImageError::SymbolTable),
    };
    let mut list: Vec<Symbol> = Vec::new();
    let mut i: usize = 0;
    assert(symbol_views(list@) =~= Seq::<(Seq<char>, u64)>::empty());
    while i < count
        invariant
            i <= count,
            elf_symbol_count(image@) == Some(count as nat),
            symbols_of(image@, i as nat) == Ok::<Seq<(Seq<char>, u64)>, ImageError>(
                symbol_views(list@),
            ),
        ensures
            i == count,
        decreases count - i,
    {
        let entry = match symbol(image, i) {
            Some(entry) => entry,
            None => {
                proof {
                    assert(symbols_of(image@, (i + 1) as nat) == Err::<
                        Seq<(Seq<char>, u64)>,
                        ImageError,
                    >(ImageError::SymbolTable));
                    lemma_symbols_error(image@, (i + 1) as nat, count as nat);
                }
                return Err(ImageError::SymbolTable);
            },
        };
        let ghost before = symbol_views(list@);
        let ghost added = entry@;
        list.push(entry);
        assert(symbol_views(list@) =~= before.push(added));
        i += 1;
    }
    Ok(list)
}

/// An error among the first sections is the error of the whole table.
proof fn lemma_sections_error(image: Seq<u8>, upto: nat, count: nat)
    requires
        upto <= count,
        executable_sections(image, upto) is Err,
    ensures
        executable_sections(image, count) == executable_sections(image, upto),
    decreases count,
{
    if upto < count {
        lemma_sections_error(image, upto, (count - 1) as nat);
    }
}

/// An error among the first symbols is the error of the whole table.
proof fn lemma_symbols_error(image: Seq<u8>, upto: nat, count: nat)
    requires
        upto <= count,
        symbols_of(image, upto) is Err,
    ensures
        symbols_of(image, count) == symbols_of(image, upto),
    decreases count,
{
    if upto < count {
        lemma_symbols_error(image, upto, (count - 1) as nat);
    }
}

impl CoreState {
    /// Loads the ELF object `image`: each executable section is copied into
    /// memory from address 0 on, in the order of the section headers, and
    /// the symbols `pass` and `fail` give the targets of a run. Where the
    /// image cannot be loaded the machine is left as it was.
    pub fn load_elf(&mut self, image: &[u8]) -> (loaded: Result<Option<Targets>, ImageError>)
        ensures
            match spec_load_elf(old(self)@, image@) {
                Ok((machine, targets)) => loaded == Ok::<Option<Targets>, ImageError>(targets)
                    && final(self)@ == machine,
                Err(e) => loaded == Err::<Option<Targets>, ImageError>(e) && final(self)@ == old(
                    self,
                )@,
            },
            final(self)@.wf(),
    {
        proof {
            use_type_invariant(&*self);
        }
        let sections = match read_sections(image) {
            Ok(sections) => sections,
            Err(e) => return Err(e),
        };
        let symbols = match read_symbols(image) {
            Ok(symbols) => symbols,
            Err(e) => return Err(e),
        };
        match self.load_sections(&sections) {
            Ok(()) => Ok(find_targets(&symbols)),
            Err(_) => Err(ImageError::TooLarge),
        }
    }
}

} // verus!
