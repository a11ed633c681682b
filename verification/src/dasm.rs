//! The two-pass orchestrator: pass 1 walks the memory image from a start
//! address, collecting control-flow targets and assigning deterministic
//! label names; pass 2 is a reserved extension point; rendering turns the
//! ordered lines into formatted text.

use std::collections::HashMap;

use vstd::prelude::*;
use vstd::string::StringExecFns;

use crate::digits::{dec_pad8, hex2, hex_min4, push_dec_pad8, push_hex2, push_hex_min4};
use crate::mos6510::{remaining, spec_step, Cpu6510, DecodeFault, DecodeStep};
use crate::opcodes::{BRANCH_OPCODE, INDIRECT_FLAG, JMP_OPCODE, SUBROUTINE_OPCODE};
use crate::types::{DisassembledLine, LineModel};

verus! {

broadcast use vstd::std_specs::hash::group_hash_axioms;

/// The model of the label table: the mapping from absolute target address
/// to generated label name, and the three counters that drive name
/// generation.
pub struct LabelState {
    pub map: Map<u32, Seq<char>>,
    pub relative_id: int,
    pub subroutine_id: int,
    pub jump_id: int,
}

/// The label table as a mapping from target address to label text.
pub open spec fn labels_model(m: Map<u32, String>) -> Map<u32, Seq<char>> {
    m.map_values(|s: String| s@)
}

/// A sequence of decoded lines, each seen as its model.
pub open spec fn lines_model(s: Seq<DisassembledLine>) -> Seq<LineModel> {
    s.map_values(|l: DisassembledLine| l@)
}

/// The name generated for the `id`-th relative-branch label.
pub open spec fn spec_branch_label(id: int) -> Seq<char> {
    "LABEL"@ + dec_pad8(id as nat)
}

/// The name generated for the `id`-th subroutine-call label.
pub open spec fn spec_subroutine_label(id: int) -> Seq<char> {
    "SUBRT"@ + dec_pad8(id as nat)
}

/// The name generated for the `id`-th jump label.
pub open spec fn spec_jump_label(id: int) -> Seq<char> {
    "JUMP_"@ + dec_pad8(id as nat)
}

/// Whether a line's flags make it a label target reference: a branch, a
/// subroutine call, or a non-indirect jump.
pub open spec fn spec_needs_label(flags: u32) -> bool {
    flags & BRANCH_OPCODE != 0 || flags & SUBROUTINE_OPCODE != 0 || (flags & JMP_OPCODE != 0
        && flags & INDIRECT_FLAG == 0)
}

/// Label assignment for one line at decode time: if the line's target
/// address already owns a name, that name becomes the operand text and
/// nothing else changes; otherwise a new name is generated from the counter
/// matching the line's classification, stored for the target address, and
/// the line receives the name as operand and a comment giving the literal
/// target address and whether it lies after (`+`) or before (`-`) the line.
pub open spec fn spec_assign(st: LabelState, lm: LineModel) -> (LabelState, LineModel) {
    if st.map.contains_key(lm.address_ref) {
        (st, LineModel { operand: st.map[lm.address_ref], ..lm })
    } else {
        let name = if lm.flags & BRANCH_OPCODE != 0 {
            spec_branch_label(st.relative_id)
        } else if lm.flags & SUBROUTINE_OPCODE != 0 {
            spec_subroutine_label(st.subroutine_id)
        } else {
            spec_jump_label(st.jump_id)
        };
        let st2 = LabelState {
            map: st.map.insert(lm.address_ref, name),
            relative_id: st.relative_id + if lm.flags & BRANCH_OPCODE != 0 {
                1int
            } else {
                0int
            },
            subroutine_id: st.subroutine_id + if lm.flags & BRANCH_OPCODE == 0 && lm.flags
                & SUBROUTINE_OPCODE != 0 {
                1int
            } else {
                0int
            },
            jump_id: st.jump_id + if lm.flags & BRANCH_OPCODE == 0 && lm.flags & SUBROUTINE_OPCODE
                == 0 {
                1int
            } else {
                0int
            },
        };
        let sign = if lm.address_ref > lm.address {
            '+'
        } else {
            '-'
        };
        let comment = seq!['$'] + hex_min4(lm.address_ref as nat) + seq![' ', sign];
        (st2, LineModel { operand: name, comment, ..lm })
    }
}

/// The outcome of pass 1 from a given cursor and label state: the decoded
/// lines in order, the final label state, and the decode fault that ended
/// the pass, if any (`None` means the pass reached end of input).
pub struct Pass1Result {
    pub lines: Seq<LineModel>,
    pub labels: LabelState,
    pub fault: Option<DecodeFault>,
}

/// Pass 1 of the disassembly, as a function of the image, its base
/// address, the cursor and the label state: decode one instruction at a
/// time, assign a label to every branch, subroutine-call or non-indirect
/// jump line at decode time, and stop at end of input or on the first
/// decode fault.
pub open spec fn spec_pass1(mem: Seq<u8>, base: u32, pc: int, st: LabelState) -> Pass1Result
    recommends
        0 <= pc,
        mem.len() <= 0x10000,
        base + mem.len() <= 0x1_0000_0000,
    decreases mem.len() - pc,
{
    match spec_step(mem, base, pc) {
        DecodeStep::End => Pass1Result { lines: Seq::empty(), labels: st, fault: None },
        DecodeStep::Fault(f) => Pass1Result { lines: Seq::empty(), labels: st, fault: Some(f) },
        DecodeStep::Next(lm, pc2) => {
            let (st1, lm1) = if spec_needs_label(lm.flags) {
                spec_assign(st, lm)
            } else {
                (st, lm)
            };
            let rest = spec_pass1(mem, base, pc2, st1);
            Pass1Result { lines: seq![lm1] + rest.lines, labels: rest.labels, fault: rest.fault }
        },
    }
}

/// The bytes of one line's byte column: its first `n` raw bytes, each as
/// two hexadecimal digits followed by one space.
pub open spec fn spec_bytes_text(bytes: Seq<u8>, n: int) -> Seq<char>
    recommends
        0 <= n <= bytes.len(),
    decreases n,
{
    if n <= 0 {
        Seq::empty()
    } else {
        spec_bytes_text(bytes, n - 1) + hex2(bytes[n - 1] as int) + seq![' ']
    }
}

/// One formatted output line: the address (four hexadecimal digits,
/// zero-padded), the raw instruction bytes padded to a fixed-width column,
/// the mnemonic, the operand or label text, and a trailing comment
/// introduced by a semicolon when one is present.
pub open spec fn spec_render_line(lm: LineModel) -> Seq<char>
    recommends
        lm.instr_size <= 2,
{
    hex_min4(lm.address as nat) + seq![' ', ' ', ' ', ' '] + spec_bytes_text(
        lm.byte_code,
        lm.instr_size as int + 1,
    ) + (if lm.instr_size == 0 {
        seq![' ', ' ', ' ', ' ', ' ', ' ']
    } else if lm.instr_size == 1 {
        seq![' ', ' ', ' ']
    } else {
        Seq::<char>::empty()
    }) + lm.opcode + seq![' '] + lm.operand + seq![' '] + (if lm.comment.len() > 0 {
        seq![' ', ' ', ' ', ';', ' '] + lm.comment
    } else {
        Seq::<char>::empty()
    })
}

/// The two-pass disassembler: a decoder, the label table with its three
/// name counters, and the ordered output lines.
pub struct Dasm {
    pub cpu: Cpu6510,
    pub labels_map: HashMap<u32, String>,
    pub lines: Vec<DisassembledLine>,
    pub relative_label_id: u32,
    pub subroutine_label_id: u32,
    pub jump_label_id: u32,
    pub start_pc: u32,
}

impl Dasm {
    /// The model of the label table and its counters.
    pub open spec fn label_state(&self) -> LabelState {
        LabelState {
            map: labels_model(self.labels_map@),
            relative_id: self.relative_label_id as int,
            subroutine_id: self.subroutine_label_id as int,
            jump_id: self.jump_label_id as int,
        }
    }

    pub open spec fn wf(&self) -> bool {
        self.cpu.wf()
    }

    /// Room left on each counter for the labels of one disassembly run: an
    /// image holds at most 65536 instructions, so a full run increments
    /// each counter at most that often.
    pub open spec fn label_headroom(&self) -> bool {
        &&& self.relative_label_id as int + 0x20000 <= u32::MAX
        &&& self.subroutine_label_id as int + 0x20000 <= u32::MAX
        &&& self.jump_label_id as int + 0x20000 <= u32::MAX
    }

    pub fn new(cpu: Cpu6510, start_pc: u32) -> (r: Dasm)
        requires
            cpu.wf(),
        ensures
            r.wf(),
            r.label_headroom(),
            r.cpu == cpu,
            r.start_pc == start_pc,
            r.lines@ =~= Seq::<DisassembledLine>::empty(),
            r.label_state().map =~= Map::<u32, Seq<char>>::empty(),
            r.label_state().relative_id == 0,
            r.label_state().subroutine_id == 0,
            r.label_state().jump_id == 0,
    {
        Dasm {
            cpu,
            start_pc,
            labels_map: HashMap::new(),
            lines: Vec::new(),
            relative_label_id: 0,
            jump_label_id: 0,
            subroutine_label_id: 0,
        }
    }

    /// Pass 1: decodes instructions from the cursor until end of input or
    /// a decode fault, assigning labels to control-flow lines at decode
    /// time and appending every decoded line to the output sequence.  On a
    /// fault the lines decoded before it are kept and the fault is
    /// returned.
    fn pass1(&mut self) -> (r: Result<(), DecodeFault>)
        requires
            old(self).wf(),
            old(self).label_headroom(),
        ensures
            final(self).wf(),
            final(self).cpu.mem() == old(self).cpu.mem(),
            final(self).cpu.base() == old(self).cpu.base(),
            final(self).start_pc == old(self).start_pc,
            ({
                let p = spec_pass1(
                    old(self).cpu.mem(),
                    old(self).cpu.base(),
                    old(self).cpu.spec_pc(),
                    old(self).label_state(),
                );
                &&& lines_model(final(self).lines@) == lines_model(old(self).lines@) + p.lines
                &&& final(self).label_state() == p.labels
                &&& r == (match p.fault {
                    Option::Some(f) => Err::<(), DecodeFault>(f),
                    Option::None => Ok::<(), DecodeFault>(()),
                })
            }),
    {
        let ghost mem = self.cpu.mem();
        let ghost base = self.cpu.base();
        let ghost pc0 = self.cpu.spec_pc();
        let ghost st0 = self.label_state();
        let ghost lines0 = self.lines@;
        let ghost p = spec_pass1(mem, base, pc0, st0);
        let ghost start0 = self.start_pc;
        let ghost rel0 = self.relative_label_id as int;
        let ghost sub0 = self.subroutine_label_id as int;
        let ghost jmp0 = self.jump_label_id as int;
        proof {
            self.cpu.lemma_wf();
        }
        loop
            invariant
                self.wf(),
                mem == old(self).cpu.mem(),
                base == old(self).cpu.base(),
                pc0 == old(self).cpu.spec_pc(),
                0 <= pc0 <= 0x10003,
                st0 == old(self).label_state(),
                lines0 == old(self).lines@,
                p == spec_pass1(mem, base, pc0, st0),
                start0 == old(self).start_pc,
                rel0 == old(self).relative_label_id as int,
                sub0 == old(self).subroutine_label_id as int,
                jmp0 == old(self).jump_label_id as int,
                self.cpu.mem() == mem,
                self.cpu.base() == base,
                self.start_pc == start0,
                rel0 + 0x20000 <= u32::MAX,
                sub0 + 0x20000 <= u32::MAX,
                jmp0 + 0x20000 <= u32::MAX,
                lines0.len() <= self.lines@.len(),
                self.lines@.take(lines0.len() as int) == lines0,
                self.lines@.len() - lines0.len() <= self.cpu.spec_pc() - pc0,
                self.relative_label_id as int <= rel0 + self.lines@.len() - lines0.len(),
                self.subroutine_label_id as int <= sub0 + self.lines@.len() - lines0.len(),
                self.jump_label_id as int <= jmp0 + self.lines@.len() - lines0.len(),
                ({
                    let rem = spec_pass1(mem, base, self.cpu.spec_pc(), self.label_state());
                    &&& p.lines == lines_model(self.lines@.skip(lines0.len() as int)) + rem.lines
                    &&& p.labels == rem.labels
                    &&& p.fault == rem.fault
                }),
            decreases remaining(mem.len() as int, self.cpu.spec_pc()),
        {
            proof {
                self.cpu.lemma_wf();
            }
            let ghost pc_cur = self.cpu.spec_pc();
            let ghost st_cur = self.label_state();
            let ghost lines_cur = self.lines@;
            let step = self.cpu.disassemble_next();
            match step {
                Ok(Option::None) => {
                    proof {
                        assert(lines_model(self.lines@) =~= lines_model(lines0) + lines_model(
                            self.lines@.skip(lines0.len() as int),
                        ));
                        assert(lines_model(self.lines@) =~= lines_model(lines0) + p.lines);
                    }
                    return Ok(());
                },
                Err(f) => {
                    proof {
                        assert(lines_model(self.lines@) =~= lines_model(lines0) + lines_model(
                            self.lines@.skip(lines0.len() as int),
                        ));
                        assert(lines_model(self.lines@) =~= lines_model(lines0) + p.lines);
                    }
                    return Err(f);
                },
                Ok(Option::Some(mut line)) => {
                    let ghost lm = line@;
                    let ghost (st1, lm1) = if spec_needs_label(lm.flags) {
                        spec_assign(st_cur, lm)
                    } else {
                        (st_cur, lm)
                    };
                    if line.flags & BRANCH_OPCODE != 0 || line.flags & SUBROUTINE_OPCODE != 0 || (
                    line.flags & JMP_OPCODE != 0 && line.flags & INDIRECT_FLAG == 0) {
                        self.generate_label(&mut line);
                    }
                    self.lines.push(line);
                    proof {
                        assert(self.lines@.take(lines0.len() as int) =~= lines0);
                        assert(self.lines@.skip(lines0.len() as int) =~= lines_cur.skip(
                            lines0.len() as int,
                        ).push(line));
                        assert(lines_model(self.lines@.skip(lines0.len() as int)) =~= lines_model(
                            lines_cur.skip(lines0.len() as int),
                        ).push(lm1));
                        let rem2 = spec_pass1(mem, base, self.cpu.spec_pc(), self.label_state());
                        assert(p.lines =~= lines_model(self.lines@.skip(lines0.len() as int))
                            + rem2.lines);
                    }
                },
            }
        }
    }

    /// Pass 2: reserved for resolving forward references that pass 1
    /// cannot see; the baseline design creates or reuses every label before
    /// emitting the referencing line, so this pass performs no work.
    fn pass2(&mut self)
        ensures
            *final(self) == *old(self),
    {
    }

    /// One disassembly run: places the cursor at the start address, then
    /// performs pass 1 and pass 2.  Returns the first decode fault, if one
    /// aborted the run; the lines decoded before it are kept.
    pub fn run(&mut self) -> (r: Result<(), DecodeFault>)
        requires
            old(self).wf(),
            old(self).label_headroom(),
        ensures
            final(self).wf(),
            final(self).cpu.mem() == old(self).cpu.mem(),
            final(self).cpu.base() == old(self).cpu.base(),
            final(self).start_pc == old(self).start_pc,
            ({
                let p = spec_pass1(
                    old(self).cpu.mem(),
                    old(self).cpu.base(),
                    old(self).start_pc as u16 as int,
                    old(self).label_state(),
                );
                &&& lines_model(final(self).lines@) == lines_model(old(self).lines@) + p.lines
                &&& final(self).label_state() == p.labels
                &&& r == (match p.fault {
                    Option::Some(f) => Err::<(), DecodeFault>(f),
                    Option::None => Ok::<(), DecodeFault>(()),
                })
            }),
    {
        self.cpu.set_pc(self.start_pc);
        let r = self.pass1();
        if let Err(f) = r {
            return Err(f);
        }
        self.pass2();
        Ok(())
    }

    /// Renders every output line of the finished run as formatted text, in
    /// order.
    pub fn render(&self) -> (r: Vec<String>)
        requires
            forall|i: int|
                0 <= i < self.lines@.len() ==> (#[trigger] self.lines@[i])@.instr_size <= 2,
        ensures
            r@.len() == self.lines@.len(),
            forall|i: int|
                0 <= i < r@.len() ==> (#[trigger] r@[i])@ == spec_render_line(self.lines@[i]@),
    {
        let mut out: Vec<String> = Vec::new();
        let mut i: usize = 0;
        while i < self.lines.len()
            invariant
                i <= self.lines@.len(),
                forall|k: int|
                    0 <= k < self.lines@.len() ==> (#[trigger] self.lines@[k])@.instr_size <= 2,
                out@.len() == i,
                forall|k: int|
                    0 <= k < i ==> (#[trigger] out@[k])@ == spec_render_line(self.lines@[k]@),
            decreases self.lines@.len() - i,
        {
            let line_text = render_line(&self.lines[i]);
            out.push(line_text);
            i = i + 1;
        }
        out
    }

    /// Assigns a label to one control-flow line, creating or reusing the
    /// name that its target address owns.
    fn generate_label(&mut self, dasm_line: &mut DisassembledLine)
        requires
            old(self).relative_label_id < u32::MAX,
            old(self).subroutine_label_id < u32::MAX,
            old(self).jump_label_id < u32::MAX,
        ensures
            final(self).cpu == old(self).cpu,
            final(self).lines == old(self).lines,
            final(self).start_pc == old(self).start_pc,
            (final(self).label_state(), final(dasm_line)@) == spec_assign(
                old(self).label_state(),
                old(dasm_line)@,
            ),
            final(self).relative_label_id as int <= old(self).relative_label_id + 1,
            final(self).subroutine_label_id as int <= old(self).subroutine_label_id + 1,
            final(self).jump_label_id as int <= old(self).jump_label_id + 1,
    {
        let key: u32 = dasm_line.address_ref;
        if self.labels_map.contains_key(&key) {
            let name = self.labels_map.get(&key).unwrap().clone();
            dasm_line.operand = name;
            proof {
                assert(final(self).label_state() == old(self).label_state());
                assert(final(dasm_line)@ == spec_assign(
                    old(self).label_state(),
                    old(dasm_line)@,
                ).1);
            }
        } else {
            let mut name = String::new();
            if dasm_line.flags & BRANCH_OPCODE != 0 {
                name.append("LABEL");
                push_dec_pad8(&mut name, self.relative_label_id);
                self.relative_label_id = self.relative_label_id + 1;
                proof {
                    assert(name@ == spec_branch_label(old(self).relative_label_id as int));
                }
            } else if dasm_line.flags & SUBROUTINE_OPCODE != 0 {
                name.append("SUBRT");
                push_dec_pad8(&mut name, self.subroutine_label_id);
                self.subroutine_label_id = self.subroutine_label_id + 1;
                proof {
                    assert(name@ == spec_subroutine_label(old(self).subroutine_label_id as int));
                }
            } else {
                name.append("JUMP_");
                push_dec_pad8(&mut name, self.jump_label_id);
                self.jump_label_id = self.jump_label_id + 1;
                proof {
                    assert(name@ == spec_jump_label(old(self).jump_label_id as int));
                }
            }
            self.labels_map.insert(key, name.clone());
            dasm_line.operand = name;
            let mut comment = String::new();
            comment.append("$");
            push_hex_min4(&mut comment, key);
            comment.append(if key > dasm_line.address {
                " +"
            } else {
                " -"
            });
            dasm_line.comment = comment;
            proof {
                reveal_strlit("$");
                reveal_strlit(" +");
                reveal_strlit(" -");
                let (st2, lm2) = spec_assign(old(self).label_state(), old(dasm_line)@);
                assert(final(dasm_line)@.comment =~= lm2.comment);
                assert(final(self).label_state().map =~= st2.map);
                assert(final(self).label_state() == st2);
                assert(final(dasm_line)@ == lm2);
            }
        }
    }
}

/// Renders one decoded line as formatted text.
pub fn render_line(dasm_line: &DisassembledLine) -> (r: String)
    requires
        dasm_line@.instr_size <= 2,
    ensures
        r@ == spec_render_line(dasm_line@),
{
    let ghost lm = dasm_line@;
    let mut out = String::new();
    push_hex_min4(&mut out, dasm_line.address);
    out.append("    ");
    proof {
        reveal_strlit("    ");
        assert(out@ =~= hex_min4(lm.address as nat) + seq![' ', ' ', ' ', ' ']);
    }
    let ghost head = out@;
    let n: usize = dasm_line.instr_size as usize + 1;
    let mut i: usize = 0;
    while i < n
        invariant
            i <= n,
            n == lm.instr_size + 1,
            lm.instr_size <= 2,
            lm == dasm_line@,
            out@ == head + spec_bytes_text(lm.byte_code, i as int),
        decreases n - i,
    {
        push_hex2(&mut out, dasm_line.byte_code[i]);
        out.append(" ");
        proof {
            reveal_strlit(" ");
            assert(out@ =~= head + spec_bytes_text(lm.byte_code, i + 1));
        }
        i = i + 1;
    }
    if dasm_line.instr_size == 0 {
        out.append("      ");
        proof {
            reveal_strlit("      ");
        }
    } else if dasm_line.instr_size == 1 {
        out.append("   ");
        proof {
            reveal_strlit("   ");
        }
    }
    let ghost padded = head + spec_bytes_text(lm.byte_code, lm.instr_size as int + 1) + (
    if lm.instr_size == 0 {
        seq![' ', ' ', ' ', ' ', ' ', ' ']
    } else if lm.instr_size == 1 {
        seq![' ', ' ', ' ']
    } else {
        Seq::<char>::empty()
    });
    proof {
        assert(out@ =~= padded);
    }
    out.append(dasm_line.opcode.as_str());
    out.append(" ");
    out.append(dasm_line.operand.as_str());
    out.append(" ");
    proof {
        reveal_strlit(" ");
    }
    if !dasm_line.comment.as_str().is_empty() {
        out.append("   ; ");
        out.append(dasm_line.comment.as_str());
        proof {
            reveal_strlit("   ; ");
            assert(out@ =~= spec_render_line(lm));
        }
    } else {
        proof {
            assert(out@ =~= spec_render_line(lm));
        }
    }
    out
}


/// Every label that pass 1 hands a line is owned by that line's target
/// address in the final label table: the table only ever grows, a target
/// address is never re-keyed, and a labeled line's operand is exactly the
/// name the final table holds for its target.  Every emitted line occupies
/// at most three bytes.
pub proof fn lemma_pass1_lines(mem: Seq<u8>, base: u32, pc: int, st: LabelState)
    ensures
        ({
            let p = spec_pass1(mem, base, pc, st);
            &&& st.map.submap_of(p.labels.map)
            &&& forall|i: int| 0 <= i < p.lines.len() ==> #[trigger] p.lines[i].instr_size <= 2
            &&& forall|i: int|
                0 <= i < p.lines.len() && spec_needs_label(#[trigger] p.lines[i].flags) ==> {
                    &&& p.labels.map.contains_key(p.lines[i].address_ref)
                    &&& p.labels.map[p.lines[i].address_ref] == p.lines[i].operand
                }
        }),
    decreases mem.len() - pc,
{
    let p = spec_pass1(mem, base, pc, st);
    match spec_step(mem, base, pc) {
        DecodeStep::End => {},
        DecodeStep::Fault(f) => {},
        DecodeStep::Next(lm, pc2) => {
            let (st1, lm1) = if spec_needs_label(lm.flags) {
                spec_assign(st, lm)
            } else {
                (st, lm)
            };
            lemma_pass1_lines(mem, base, pc2, st1);
            let rest = spec_pass1(mem, base, pc2, st1);
            assert(st.map.submap_of(st1.map));
            assert(st1.map.submap_of(rest.labels.map));
            assert(st.map.submap_of(p.labels.map)) by {
                assert forall|k: u32| #[trigger]
                    st.map.dom().contains(k) implies p.labels.map.dom().contains(k)
                    && st.map[k] == p.labels.map[k] by {
                    assert(st1.map.dom().contains(k));
                    assert(st.map[k] == st1.map[k]);
                }
            }
            assert(p.lines[0] == lm1);
            assert(lm1.instr_size == lm.instr_size);
            assert(lm.instr_size <= 2);
            assert forall|i: int| 0 <= i < p.lines.len() implies #[trigger] p.lines[i].instr_size
                <= 2 by {
                if i > 0 {
                    assert(p.lines[i] == rest.lines[i - 1]);
                }
            }
            assert forall|i: int|
                0 <= i < p.lines.len() && spec_needs_label(#[trigger] p.lines[i].flags) implies {
                &&& p.labels.map.contains_key(p.lines[i].address_ref)
                &&& p.labels.map[p.lines[i].address_ref] == p.lines[i].operand
            } by {
                if i == 0 {
                    assert(p.lines[0] == lm1);
                    assert(st1.map.contains_key(lm1.address_ref));
                    assert(st1.map[lm1.address_ref] == lm1.operand);
                } else {
                    assert(p.lines[i] == rest.lines[i - 1]);
                }
            }
        },
    }
}

/// Label reuse: any two control-flow lines of one pass that target the
/// same address carry the same label text.  (The label table is a map, so
/// the target address is keyed at most once by construction.)
pub proof fn lemma_label_reuse(mem: Seq<u8>, base: u32, pc: int, st: LabelState)
    ensures
        ({
            let p = spec_pass1(mem, base, pc, st);
            forall|i: int, j: int|
                0 <= i < p.lines.len() && 0 <= j < p.lines.len() && spec_needs_label(
                    #[trigger] p.lines[i].flags,
                ) && spec_needs_label(#[trigger] p.lines[j].flags) && p.lines[i].address_ref
                    == p.lines[j].address_ref ==> p.lines[i].operand == p.lines[j].operand
        }),
{
    lemma_pass1_lines(mem, base, pc, st);
}

/// Termination bound: pass 1 emits no more lines than there are bytes
/// between the start offset and the end of the image, since every
/// instruction occupies at least one byte.
pub proof fn lemma_pass1_line_bound(mem: Seq<u8>, base: u32, pc: int, st: LabelState)
    ensures
        spec_pass1(mem, base, pc, st).lines.len() <= remaining(mem.len() as int, pc),
    decreases mem.len() - pc,
{
    match spec_step(mem, base, pc) {
        DecodeStep::End => {},
        DecodeStep::Fault(f) => {},
        DecodeStep::Next(lm, pc2) => {
            let (st1, lm1) = if spec_needs_label(lm.flags) {
                spec_assign(st, lm)
            } else {
                (st, lm)
            };
            lemma_pass1_line_bound(mem, base, pc2, st1);
        },
    }
}

/// Label determinism: two disassemblers over the same image, started at
/// the same address in the same label state, produce the same lines — the
/// whole run is a function of the image, the base address, the start
/// address and the initial label state, with no dependence on the
/// iteration order of any unordered structure.
pub proof fn lemma_run_deterministic(a: Dasm, b: Dasm)
    requires
        a.cpu.mem() == b.cpu.mem(),
        a.cpu.base() == b.cpu.base(),
        a.start_pc == b.start_pc,
        a.label_state() == b.label_state(),
    ensures
        spec_pass1(a.cpu.mem(), a.cpu.base(), a.start_pc as u16 as int, a.label_state())
            == spec_pass1(b.cpu.mem(), b.cpu.base(), b.start_pc as u16 as int, b.label_state()),
{
}

} // verus!
