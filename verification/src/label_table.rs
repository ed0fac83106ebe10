//! The first pass: every label gets its address.
//!
//! Lines are read in order. Data comes first and is addressed from
//! `DATA_BASE`; the marker line `.code:` starts the code, which is addressed
//! from `CODE_BASE`. A label stands for the address of what follows it.

use vstd::prelude::*;
use vstd::hash_map::StringHashMap;
use vstd::string::StrSliceExecFns;
use crate::error::AsmError;
use crate::repr::data::{asciiz_text_of, directive_kind, directive_size, Directive};
use crate::repr::opcode::Opcode;
use crate::text::{find_char, first_index, same_text, slice, split_tokens, strip_commas, strip_trailing_commas, token_at, token_or_empty, trim, trim_text};
use crate::validation::{valid_label, validate_label};

verus! {

/// The address of the first byte of data.
pub const DATA_BASE: usize = 0x9000;

/// The address of the first instruction.
pub const CODE_BASE: usize = 0x5800;

/// The addresses of a program's labels, by name.
pub struct LabelTable {
    map: StringHashMap<usize>,
}

impl View for LabelTable {
    type V = Map<Seq<char>, usize>;

    closed spec fn view(&self) -> Map<Seq<char>, usize> {
        self.map@
    }
}

impl LabelTable {
    /// A table without labels.
    pub fn new() -> (table: LabelTable)
        ensures
            table@ == Map::<Seq<char>, usize>::empty(),
    {
        LabelTable { map: StringHashMap::new() }
    }

    /// Gives `label` the address `address`, in place of any it had.
    pub fn insert(&mut self, label: &str, address: usize)
        ensures
            final(self)@ == old(self)@.insert(label@, address),
    {
        self.map.insert(label.to_owned(), address);
    }

    /// The address of `label`, if the table defines it.
    pub fn get(&self, label: &str) -> (r: Option<usize>)
        ensures
            r == (if self@.contains_key(label@) {
                Some(self@[label@])
            } else {
                None
            }),
    {
        match self.map.get(label) {
            Some(address) => Some(*address),
            None => None,
        }
    }

    /// Whether the table defines `label`.
    pub fn contains(&self, label: &str) -> (r: bool)
        ensures
            r == self@.contains_key(label@),
    {
        self.map.contains_key(label)
    }

    /// The number of labels.
    pub fn len(&self) -> (r: usize)
        ensures
            r == self@.len(),
    {
        self.map.len()
    }
}

/// Where the first pass stands between two lines.
pub struct Resolver {
    /// Whether the lines read so far are all data.
    pub data_mode: bool,
    /// The address of the next byte of data.
    pub data_address: usize,
    /// The address of the next instruction.
    pub code_address: usize,
    /// The labels defined so far.
    pub labels: Map<Seq<char>, usize>,
}

/// The line that ends the data and starts the code.
pub open spec fn is_code_marker(line: Seq<char>) -> bool {
    line == ".code:"@
}

/// The number of bytes that an instruction takes: four for `movi`, which
/// carries a large immediate, and two for every other mnemonic.
pub open spec fn instruction_size(text: Seq<char>) -> nat {
    if Opcode::spec_parse(strip_commas(token_or_empty(text, 0))) == Some(Opcode::MovI) {
        4
    } else {
        2
    }
}

/// The address `n` bytes after `address`, if there is one.
pub open spec fn advanced(address: usize, n: nat) -> Result<usize, AsmError> {
    if address + n > usize::MAX {
        Err(AsmError::AddressOverflow)
    } else {
        Ok((address + n) as usize)
    }
}

impl Resolver {
    /// The state before the first line.
    pub open spec fn initial() -> Resolver {
        Resolver {
            data_mode: true,
            data_address: DATA_BASE,
            code_address: CODE_BASE,
            labels: Map::empty(),
        }
    }

    /// The address that a label defined now stands for.
    pub open spec fn current_address(self) -> usize {
        if self.data_mode {
            self.data_address
        } else {
            self.code_address
        }
    }

    /// Records a label at the current address. A later definition of a name
    /// replaces an earlier one.
    pub open spec fn define(self, label: Seq<char>) -> Result<Resolver, AsmError> {
        if valid_label(label) {
            Ok(Resolver { labels: self.labels.insert(label, self.current_address()), ..self })
        } else {
            Err(AsmError::InvalidLabel)
        }
    }

    /// Moves the current address past a directive or an instruction.
    pub open spec fn advance(self, text: Seq<char>) -> Result<Resolver, AsmError> {
        if self.data_mode {
            match directive_size(text) {
                Err(e) => Err(e),
                Ok(n) => match advanced(self.data_address, n) {
                    Err(e) => Err(e),
                    Ok(address) => Ok(Resolver { data_address: address, ..self }),
                },
            }
        } else {
            match advanced(self.code_address, instruction_size(text)) {
                Err(e) => Err(e),
                Ok(address) => Ok(Resolver { code_address: address, ..self }),
            }
        }
    }

    /// Reads one line. A blank line changes nothing; the marker line ends
    /// the data; a line that ends in a colon defines a label and nothing
    /// else; any other line defines the label before its first colon, if
    /// it has one, and moves the address past what follows.
    pub open spec fn step(self, raw: Seq<char>) -> Result<Resolver, AsmError> {
        let line = trim(raw);
        if line.len() == 0 {
            Ok(self)
        } else if is_code_marker(line) {
            Ok(Resolver { data_mode: false, ..self })
        } else if line.last() == ':' {
            self.define(line.drop_last())
        } else {
            let colon = first_index(line, ':');
            if colon < line.len() {
                match self.define(line.take(colon)) {
                    Err(e) => Err(e),
                    Ok(defined) => defined.advance(line.skip(colon + 1)),
                }
            } else {
                self.advance(line)
            }
        }
    }

    /// Reads the lines in order, and stops at the first error.
    pub open spec fn run(self, lines: Seq<Seq<char>>) -> Result<Resolver, AsmError>
        decreases lines.len(),
    {
        if lines.len() == 0 {
            Ok(self)
        } else {
            match self.step(lines[0]) {
                Err(e) => Err(e),
                Ok(next) => next.run(lines.drop_first()),
            }
        }
    }
}

/// The label table of a program, or the error that stops the first pass.
pub open spec fn spec_label_table(lines: Seq<Seq<char>>) -> Result<Map<Seq<char>, usize>, AsmError> {
    match Resolver::initial().run(lines) {
        Ok(end) => Ok(end.labels),
        Err(e) => Err(e),
    }
}

/// Addresses only grow, and the section never turns back to data.
pub proof fn lemma_step_monotonic(before: Resolver, line: Seq<char>)
    requires
        before.step(line) is Ok,
    ensures
        before.data_address <= before.step(line)->Ok_0.data_address,
        before.code_address <= before.step(line)->Ok_0.code_address,
        !before.data_mode ==> !before.step(line)->Ok_0.data_mode,
{
}

/// The address after a data line, or the error that the line gives.
fn advance_data(address: usize, text: &str) -> (r: Result<usize, AsmError>)
    ensures
        r == match directive_size(text@) {
            Err(e) => Err::<usize, AsmError>(e),
            Ok(n) => advanced(address, n),
        },
{
    let toks = split_tokens(text);
    let first = token_at(&toks, 0);
    let kind = match directive_kind(first) {
        Some(kind) => kind,
        None => {
            return Err(AsmError::UnknownDirective);
        },
    };
    let end = match kind {
        Directive::Byte => address.checked_add(1),
        Directive::Word => address.checked_add(2),
        Directive::Long => address.checked_add(4),
        Directive::Array => {
            proof {
                reveal_strlit(".array");
            }
            assert(first@.len() == 6);
            address.checked_add(toks.len() - 1)
        },
        Directive::Asciiz => {
            match asciiz_text_of(text) {
                Some(t) => {
                    let bytes = t.as_bytes_vec();
                    match address.checked_add(bytes.len()) {
                        Some(last) => last.checked_add(1),
                        None => None,
                    }
                },
                None => {
                    return Err(AsmError::UnterminatedText);
                },
            }
        },
    };
    match end {
        Some(end) => Ok(end),
        None => Err(AsmError::AddressOverflow),
    }
}

/// The address after an instruction line.
fn advance_code(address: usize, text: &str) -> (r: Result<usize, AsmError>)
    ensures
        r == advanced(address, instruction_size(text@)),
{
    let toks = split_tokens(text);
    let size: usize = match Opcode::parse(strip_trailing_commas(token_at(&toks, 0))) {
        Ok(Opcode::MovI) => 4,
        _ => 2,
    };
    match address.checked_add(size) {
        Some(end) => Ok(end),
        None => Err(AsmError::AddressOverflow),
    }
}

/// Takes the lines of a program and generates its label table, where the
/// label is the key and the address of the label is the value.
pub fn get_label_table(lines: &Vec<String>) -> (r: Result<LabelTable, AsmError>)
    ensures
        match spec_label_table(lines.deep_view()) {
            Ok(labels) => r is Ok && r->Ok_0@ == labels,
            Err(e) => r is Err && r->Err_0 == e,
        },
{
    let mut label_table = LabelTable::new();
    let mut data_mode = true;
    let mut code_line_num: usize = CODE_BASE;
    let mut data_line_num: usize = DATA_BASE;
    let ghost all = lines.deep_view();
    let ghost mut state = Resolver::initial();
    let mut i: usize = 0;
    assert(all.skip(0) == all);
    while i < lines.len()
        invariant
            i <= lines.len(),
            all == lines.deep_view(),
            all.len() == lines.len(),
            state.data_mode == data_mode,
            state.data_address == data_line_num,
            state.code_address == code_line_num,
            state.labels == label_table@,
            Resolver::initial().run(all) == state.run(all.skip(i as int)),
        decreases lines.len() - i,
    {
        let ghost rest = all.skip(i as int);
        assert(rest[0] == lines@[i as int]@);
        assert(rest.drop_first() == all.skip(i + 1));
        let line = trim_text(lines[i].as_str());
        i = i + 1;
        let len = line.unicode_len();
        if len == 0 {
            continue ;
        }
        if same_text(line, ".code:") {
            data_mode = false;
            proof {
                state = Resolver { data_mode: false, ..state };
            }
            continue ;
        }
        let address = if data_mode {
            data_line_num
        } else {
            code_line_num
        };
        if line.get_char(len - 1) == ':' {
            let label = slice(line, 0, len - 1);
            if validate_label(label).is_err() {
                return Err(AsmError::InvalidLabel);
            }
            label_table.insert(label, address);
            proof {
                state = state.define(label@)->Ok_0;
            }
            continue ;
        }
        let colon = find_char(line, ':');
        let text = if colon < len {
            let label = slice(line, 0, colon);
            if validate_label(label).is_err() {
                return Err(AsmError::InvalidLabel);
            }
            label_table.insert(label, address);
            proof {
                state = state.define(label@)->Ok_0;
            }
            slice(line, colon + 1, len)
        } else {
            line
        };
        if data_mode {
            match advance_data(data_line_num, text) {
                Ok(end) => {
                    data_line_num = end;
                },
                Err(e) => {
                    return Err(e);
                },
            }
        } else {
            match advance_code(code_line_num, text) {
                Ok(end) => {
                    code_line_num = end;
                },
                Err(e) => {
                    return Err(e);
                },
            }
        }
        proof {
            state = state.advance(text@)->Ok_0;
        }
    }
    assert(all.skip(i as int).len() == 0);
    Ok(label_table)
}

} // verus!
