//! The second pass and the emitter.
//!
//! Each line is translated with the finished label table at hand: its label
//! is dropped, a reference `@name` gives way to the address of `name`, and
//! what is left is read as data or as an instruction, according to the
//! section that the line stands in. The emitter then writes the image.

use vstd::prelude::*;
use vstd::string::{StrSliceExecFns, StringExecFns};
use crate::error::AsmError;
use crate::label_table::{get_label_table, instruction_size, is_code_marker, spec_label_table, LabelTable};
use crate::number::{decimal, decimal_string};
use crate::repr::data::{after_label, long_bytes, spec_directive, strip_label, word_bytes, Data};
use crate::repr::instruction::{InstrType, Instruction, InstructionOrData, Item};
use crate::text::{find_char, first_index, same_text, slice, trim, trim_text};
use crate::validation::{valid_label, validate_instruction, validate_label, violation};

verus! {

/// The section in which the lines after `line` stand: data as long as no
/// marker line has been read.
pub open spec fn next_mode(line: Seq<char>, data_mode: bool) -> bool {
    data_mode && !is_code_marker(trim(line))
}

/// The text with its label reference replaced by the label's address in
/// decimal. A reference starts at the first `@` and runs to the end of the
/// text; a text without `@` stays as it is.
pub open spec fn substituted(text: Seq<char>, labels: Map<Seq<char>, usize>) -> Result<
    Seq<char>,
    AsmError,
> {
    let at = first_index(text, '@');
    if at >= text.len() {
        Ok(text)
    } else {
        let label = text.skip(at + 1);
        if !valid_label(label) {
            Err(AsmError::InvalidLabel)
        } else if !labels.contains_key(label) {
            Err(AsmError::UnknownLabel)
        } else {
            Ok(text.take(at) + decimal(labels[label] as nat))
        }
    }
}

/// The instruction that a text writes, if it is one that the validator
/// accepts.
pub open spec fn valid_instruction(text: Seq<char>) -> Result<Instruction, AsmError> {
    match Instruction::spec_parse(text) {
        Err(e) => Err(e),
        Ok(instr) => match violation(instr) {
            Some(v) => Err(v.spec_kind()),
            None => Ok(instr),
        },
    }
}

/// What a line translates to: nothing for a line that is blank behind its
/// label, else data or an instruction according to the section.
pub open spec fn spec_process_line(
    line: Seq<char>,
    labels: Map<Seq<char>, usize>,
    data_mode: bool,
) -> Result<Option<Item>, AsmError> {
    let body = trim(after_label(line));
    if body.len() == 0 {
        Ok(None)
    } else {
        match substituted(body, labels) {
            Err(e) => Err(e),
            Ok(text) => {
                if next_mode(line, data_mode) {
                    match spec_directive(text) {
                        Err(e) => Err(e),
                        Ok(bytes) => Ok(Some(Item::Data(bytes))),
                    }
                } else {
                    match valid_instruction(text) {
                        Err(e) => Err(e),
                        Ok(instr) => Ok(Some(Item::Instruction(instr))),
                    }
                }
            },
        }
    }
}

/// Whether a translated line is what is expected of it.
pub open spec fn line_is(
    r: Result<Option<InstructionOrData>, AsmError>,
    expected: Result<Option<Item>, AsmError>,
) -> bool {
    match expected {
        Err(e) => r is Err && r->Err_0 == e,
        Ok(None) => r is Ok && r->Ok_0 is None,
        Ok(Some(item)) => r is Ok && r->Ok_0 is Some && r->Ok_0->0@ == item,
    }
}

/// Replaces a label reference by the label's address.
fn substitute(text: &str, label_table: &LabelTable) -> (r: Result<String, AsmError>)
    ensures
        match substituted(text@, label_table@) {
            Ok(s) => r is Ok && r->Ok_0@ == s,
            Err(e) => r is Err && r->Err_0 == e,
        },
{
    let at = find_char(text, '@');
    let len = text.unicode_len();
    if at >= len {
        return Ok(text.to_owned());
    }
    let label = slice(text, at + 1, len);
    if validate_label(label).is_err() {
        return Err(AsmError::InvalidLabel);
    }
    let address = match label_table.get(label) {
        Some(address) => address,
        None => {
            return Err(AsmError::UnknownLabel);
        },
    };
    let mut new_line = slice(text, 0, at).to_owned();
    let number = decimal_string(address);
    new_line.append(number.as_str());
    Ok(new_line)
}

/// Takes a line of S6 assembly and removes the label. Returns `None` if the
/// line is just a label, otherwise generates the data or the instruction
/// for the line. The marker line ends the data section for every line after
/// it.
pub fn process_line(line: &str, label_table: &LabelTable, data_mode: &mut bool) -> (r: Result<
    Option<InstructionOrData>,
    AsmError,
>)
    ensures
        *final(data_mode) == next_mode(line@, *old(data_mode)),
        line_is(r, spec_process_line(line@, label_table@, *old(data_mode))),
        r matches Ok(Some(InstructionOrData::Instruction(instr))) ==> instr.wf(),
{
    if same_text(trim_text(line), ".code:") {
        *data_mode = false;
    }
    let body = trim_text(strip_label(line));
    if body.unicode_len() == 0 {
        return Ok(None);
    }
    let new_line = match substitute(body, label_table) {
        Ok(new_line) => new_line,
        Err(e) => {
            return Err(e);
        },
    };
    if *data_mode {
        match Data::from_directive(new_line.as_str()) {
            Ok(data) => Ok(Some(InstructionOrData::Data(data))),
            Err(e) => Err(e),
        }
    } else {
        let instr = match Instruction::parse(new_line.as_str()) {
            Ok(instr) => instr,
            Err(e) => {
                return Err(e);
            },
        };
        match validate_instruction(&instr) {
            Ok(()) => Ok(Some(InstructionOrData::Instruction(instr))),
            Err(v) => Err(v.kind()),
        }
    }
}

/// The items that the lines translate to, in order, or the first error.
pub open spec fn spec_translate_from(
    lines: Seq<Seq<char>>,
    labels: Map<Seq<char>, usize>,
    data_mode: bool,
) -> Result<Seq<Item>, AsmError>
    decreases lines.len(),
{
    if lines.len() == 0 {
        Ok(Seq::empty())
    } else {
        match spec_process_line(lines[0], labels, data_mode) {
            Err(e) => Err(e),
            Ok(first) => match spec_translate_from(
                lines.drop_first(),
                labels,
                next_mode(lines[0], data_mode),
            ) {
                Err(e) => Err(e),
                Ok(rest) => Ok(
                    match first {
                        Some(item) => seq![item] + rest,
                        None => rest,
                    },
                ),
            },
        }
    }
}

/// The items of a whole program, which starts in the data section.
pub open spec fn spec_translate(lines: Seq<Seq<char>>, labels: Map<Seq<char>, usize>) -> Result<
    Seq<Item>,
    AsmError,
> {
    spec_translate_from(lines, labels, true)
}

/// The translated lines as plain items.
pub open spec fn items_of(items: Seq<InstructionOrData>) -> Seq<Item> {
    items.map_values(|item: InstructionOrData| item@)
}

/// The items `done` followed by those of `rest`.
pub open spec fn continued(done: Seq<Item>, rest: Result<Seq<Item>, AsmError>) -> Result<
    Seq<Item>,
    AsmError,
> {
    match rest {
        Err(e) => Err(e),
        Ok(rest) => Ok(done + rest),
    }
}

/// Translates every line of a program with its label table at hand.
pub fn translate(lines: &Vec<String>, label_table: &LabelTable) -> (r: Result<
    Vec<InstructionOrData>,
    AsmError,
>)
    ensures
        match spec_translate(lines.deep_view(), label_table@) {
            Ok(items) => r is Ok && items_of(r->Ok_0@) == items,
            Err(e) => r is Err && r->Err_0 == e,
        },
{
    let mut items: Vec<InstructionOrData> = Vec::new();
    let mut data_mode = true;
    let ghost all = lines.deep_view();
    let ghost labels = label_table@;
    let mut i: usize = 0;
    assert(all.skip(0) == all);
    assert(items_of(items@) =~= Seq::<Item>::empty());
    assert(continued(Seq::<Item>::empty(), spec_translate_from(all, labels, true))
        == spec_translate_from(all, labels, true)) by {
        if let Ok(rest) = spec_translate_from(all, labels, true) {
            assert(Seq::<Item>::empty() + rest =~= rest);
        }
    }
    while i < lines.len()
        invariant
            i <= lines.len(),
            all == lines.deep_view(),
            all.len() == lines.len(),
            labels == label_table@,
            spec_translate(all, labels) == continued(
                items_of(items@),
                spec_translate_from(all.skip(i as int), labels, data_mode),
            ),
        decreases lines.len() - i,
    {
        let ghost rest = all.skip(i as int);
        let ghost before = items_of(items@);
        let ghost mode = data_mode;
        assert(rest[0] == lines@[i as int]@);
        assert(rest.drop_first() == all.skip(i + 1));
        match process_line(lines[i].as_str(), label_table, &mut data_mode) {
            Ok(Some(item)) => {
                items.push(item);
                proof {
                    let after = items_of(items@);
                    assert(after =~= before.push(item@));
                    if let Ok(tail) = spec_translate_from(rest.drop_first(), labels, data_mode) {
                        assert(before + (seq![item@] + tail) =~= after + tail);
                    }
                }
            },
            Ok(None) => {},
            Err(e) => {
                return Err(e);
            },
        }
        i = i + 1;
    }
    assert(all.skip(i as int).len() == 0);
    assert(items_of(items@) + Seq::<Item>::empty() =~= items_of(items@));
    Ok(items)
}

/// The bytes `.data:`, which open the image.
pub open spec fn data_marker() -> Seq<u8> {
    seq![0x2Eu8, 0x64u8, 0x61u8, 0x74u8, 0x61u8, 0x3Au8]
}

/// The bytes `.code:`, which stand before the first instruction.
pub open spec fn code_marker() -> Seq<u8> {
    seq![0x2Eu8, 0x63u8, 0x6Fu8, 0x64u8, 0x65u8, 0x3Au8]
}

/// The bytes of a machine word, the highest byte first.
pub open spec fn word_image(word: InstrType) -> Seq<u8> {
    match word {
        InstrType::Regular(w) => word_bytes(w as nat),
        InstrType::Long(w) => long_bytes(w as nat),
    }
}

/// The bytes that the items add to the image. Data is copied as it is; an
/// instruction is encoded, and the first one is preceded by the code marker.
pub open spec fn spec_emit_from(items: Seq<Item>, code_started: bool) -> Result<Seq<u8>, AsmError>
    decreases items.len(),
{
    if items.len() == 0 {
        Ok(Seq::empty())
    } else {
        match items[0] {
            Item::Data(bytes) => match spec_emit_from(items.drop_first(), code_started) {
                Err(e) => Err(e),
                Ok(rest) => Ok(bytes + rest),
            },
            Item::Instruction(instr) => match instr.spec_encode() {
                Err(e) => Err(e),
                Ok(word) => match spec_emit_from(items.drop_first(), true) {
                    Err(e) => Err(e),
                    Ok(rest) => Ok(
                        (if code_started {
                            Seq::<u8>::empty()
                        } else {
                            code_marker()
                        }) + word_image(word) + rest,
                    ),
                },
            },
        }
    }
}

/// The image of a program: the data marker, then what the items add.
pub open spec fn spec_emit(items: Seq<Item>) -> Result<Seq<u8>, AsmError> {
    match spec_emit_from(items, false) {
        Err(e) => Err(e),
        Ok(rest) => Ok(data_marker() + rest),
    }
}

/// The bytes `done` followed by those of `rest`.
pub open spec fn extended(done: Seq<u8>, rest: Result<Seq<u8>, AsmError>) -> Result<
    Seq<u8>,
    AsmError,
> {
    match rest {
        Err(e) => Err(e),
        Ok(rest) => Ok(done + rest),
    }
}

fn push_all(bytes: &mut Vec<u8>, more: &Vec<u8>)
    ensures
        final(bytes)@ == old(bytes)@ + more@,
{
    let mut k: usize = 0;
    while k < more.len()
        invariant
            k <= more.len(),
            bytes@ == old(bytes)@ + more@.take(k as int),
        decreases more.len() - k,
    {
        bytes.push(more[k]);
        assert(more@.take(k + 1) == more@.take(k as int).push(more@[k as int]));
        k = k + 1;
    }
    assert(more@.take(more.len() as int) == more@);
}

fn push_word(bytes: &mut Vec<u8>, word: InstrType)
    ensures
        final(bytes)@ == old(bytes)@ + word_image(word),
{
    match word {
        InstrType::Regular(w) => {
            bytes.push((w / 0x100) as u8);
            bytes.push((w % 0x100) as u8);
            assert(bytes@ =~= old(bytes)@ + word_bytes(w as nat));
        },
        InstrType::Long(w) => {
            bytes.push((w / 0x1000000) as u8);
            bytes.push(((w / 0x10000) % 0x100) as u8);
            bytes.push(((w / 0x100) % 0x100) as u8);
            bytes.push((w % 0x100) as u8);
            assert(bytes@ =~= old(bytes)@ + long_bytes(w as nat));
        },
    }
}

/// Writes the image of a translated program: the data marker, every item in
/// order, and the code marker once, before the first instruction.
pub fn emit(items: &Vec<InstructionOrData>) -> (r: Result<Vec<u8>, AsmError>)
    ensures
        match spec_emit(items_of(items@)) {
            Ok(image) => r is Ok && r->Ok_0@ == image,
            Err(e) => r is Err && r->Err_0 == e,
        },
{
    let mut bytes: Vec<u8> = Vec::new();
    bytes.push(0x2E);
    bytes.push(0x64);
    bytes.push(0x61);
    bytes.push(0x74);
    bytes.push(0x61);
    bytes.push(0x3A);
    let mut data_mode = true;
    let ghost all = items_of(items@);
    let mut i: usize = 0;
    assert(all.skip(0) == all);
    assert(bytes@ =~= data_marker());
    while i < items.len()
        invariant
            i <= items.len(),
            all == items_of(items@),
            all.len() == items.len(),
            spec_emit(all) == extended(bytes@, spec_emit_from(all.skip(i as int), !data_mode)),
        decreases items.len() - i,
    {
        let ghost rest = all.skip(i as int);
        let ghost before = bytes@;
        assert(rest[0] == items@[i as int]@);
        assert(rest.drop_first() == all.skip(i + 1));
        match &items[i] {
            InstructionOrData::Data(data) => {
                push_all(&mut bytes, &data.bytes);
                proof {
                    if let Ok(tail) = spec_emit_from(rest.drop_first(), !data_mode) {
                        assert(before + (data.bytes@ + tail) =~= bytes@ + tail);
                    }
                }
            },
            InstructionOrData::Instruction(instr) => {
                let word = match instr.encode() {
                    Ok(word) => word,
                    Err(e) => {
                        return Err(e);
                    },
                };
                let ghost lead = if data_mode {
                    code_marker()
                } else {
                    Seq::<u8>::empty()
                };
                if data_mode {
                    data_mode = false;
                    bytes.push(0x2E);
                    bytes.push(0x63);
                    bytes.push(0x6F);
                    bytes.push(0x64);
                    bytes.push(0x65);
                    bytes.push(0x3A);
                }
                assert(bytes@ =~= before + lead);
                push_word(&mut bytes, word);
                proof {
                    if let Ok(tail) = spec_emit_from(rest.drop_first(), true) {
                        assert(before + (lead + word_image(word) + tail) =~= bytes@ + tail);
                    }
                }
            },
        }
        i = i + 1;
    }
    assert(all.skip(i as int).len() == 0);
    assert(bytes@ + Seq::<u8>::empty() =~= bytes@);
    Ok(bytes)
}

/// An instruction that the validator accepts takes as many bytes in the
/// image as the first pass counts for its line.
pub proof fn lemma_size_of_instruction(text: Seq<char>)
    requires
        valid_instruction(text) is Ok,
        valid_instruction(text)->Ok_0.spec_encode() is Ok,
    ensures
        word_image(valid_instruction(text)->Ok_0.spec_encode()->Ok_0).len() == instruction_size(
            text,
        ),
{
    let instr = Instruction::spec_parse(text)->Ok_0;
    assert(violation(instr) is None);
}

/// The image of a program, or the first error that stops its translation.
pub open spec fn spec_assemble(lines: Seq<Seq<char>>) -> Result<Seq<u8>, AsmError> {
    match spec_label_table(lines) {
        Err(e) => Err(e),
        Ok(labels) => match spec_translate(lines, labels) {
            Err(e) => Err(e),
            Ok(items) => spec_emit(items),
        },
    }
}

/// Translates a program, given as its lines, into its image: the labels are
/// resolved over the whole program first, then every line is translated,
/// and the result is written out.
pub fn assemble(lines: &Vec<String>) -> (r: Result<Vec<u8>, AsmError>)
    ensures
        match spec_assemble(lines.deep_view()) {
            Ok(image) => r is Ok && r->Ok_0@ == image,
            Err(e) => r is Err && r->Err_0 == e,
        },
{
    let label_table = match get_label_table(lines) {
        Ok(label_table) => label_table,
        Err(e) => {
            return Err(e);
        },
    };
    let items = match translate(lines, &label_table) {
        Ok(items) => items,
        Err(e) => {
            return Err(e);
        },
    };
    emit(&items)
}

} // verus!
