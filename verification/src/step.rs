use vstd::prelude::*;
use crate::decode::lemma_decode_valid;
use crate::decode::spec_decode_step;
use crate::exec::spec_exec;
use crate::instruction::GameboyError;
use crate::machine::Gameboy;
use crate::machine::GbModel;
use crate::machine::mem_at;
use crate::machine::pc_plus;

verus! {

/// Effect of one fetch-decode-execute unit of work: the machine afterwards
/// and whether the step succeeded. On a decode or execute failure the
/// machine keeps the state it had when the failure was detected (the
/// program counter already past the bytes consumed so far).
pub open spec fn spec_step(m: GbModel) -> (GbModel, Result<(), GameboyError>) {
    let opcode = mem_at(m, m.regs.pc);
    let m1 = GbModel { regs: pc_plus(m.regs, 1), ..m };
    let (m2, decoded) = spec_decode_step(m1, opcode);
    match decoded {
        Ok(i) => match spec_exec(m2, i) {
            Ok(m3) => (m3, Ok(())),
            Err(e) => (m2, Err(e)),
        },
        Err(e) => (m2, Err(e)),
    }
}

/// `m1` is reached from `m0` by exactly `n` successful steps.
pub open spec fn reaches(m0: GbModel, m1: GbModel, n: nat) -> bool
    decreases n,
{
    if n == 0 {
        m1 == m0
    } else {
        exists|mp: GbModel|
            reaches(m0, mp, (n - 1) as nat) && spec_step(mp) == (m1, Ok::<(), GameboyError>(()))
    }
}

impl Gameboy {
    /// One unit of work: fetch an opcode byte (advancing the program
    /// counter), decode it (advancing further past any operand bytes), and
    /// execute it (which may overwrite the program counter on a control
    /// transfer).
    pub fn step(&mut self) -> (r: Result<(), GameboyError>)
        requires
            old(self).wf(),
        ensures
            final(self).wf(),
            ({
                let (m2, rr) = spec_step(old(self)@);
                final(self)@ == m2 && r == rr
            }),
    {
        let opcode = self.fetch();
        let instruction = match self.decode(opcode) {
            Ok(i) => i,
            Err(e) => {
                return Err(e);
            },
        };
        proof {
            let m1 = GbModel { regs: pc_plus(old(self)@.regs, 1), ..old(self)@ };
            lemma_decode_valid(
                opcode,
                mem_at(m1, m1.regs.pc),
                mem_at(m1, vstd::wrapping::u16_specs::wrapping_add(m1.regs.pc, 1)),
            );
            lemma_decode_valid(mem_at(m1, m1.regs.pc), 0, 0);
        }
        self.execute(instruction)
    }

    /// Steps the machine until a fatal decode or execute failure or until
    /// the caller's step budget runs out (the core itself has no terminal
    /// state; a caller bounds the work externally). A reported failure
    /// comes from a machine reachable by fewer than `max_steps` successful
    /// steps; an exhausted budget leaves a machine reached by exactly
    /// `max_steps` of them.
    pub fn run(&mut self, max_steps: u64) -> (r: Option<GameboyError>)
        requires
            old(self).wf(),
        ensures
            final(self).wf(),
            match r {
                Some(e) => exists|mp: GbModel, n: nat|
                    n < max_steps && reaches(old(self)@, mp, n) && spec_step(mp) == (
                        final(self)@,
                        Err::<(), GameboyError>(e),
                    ),
                None => reaches(old(self)@, final(self)@, max_steps as nat),
            },
    {
        let ghost m0 = self@;
        let mut i: u64 = 0;
        while i < max_steps
            invariant
                self.wf(),
                i <= max_steps,
                m0 == old(self)@,
                reaches(m0, self@, i as nat),
            decreases max_steps - i,
        {
            let ghost pre = self@;
            match self.step() {
                Ok(()) => {
                    proof {
                        assert(reaches(m0, pre, i as nat));
                        assert(spec_step(pre) == (self@, Ok::<(), GameboyError>(())));
                        assert(reaches(m0, self@, (i + 1) as nat));
                    }
                    i = i + 1;
                },
                Err(e) => {
                    proof {
                        assert(reaches(old(self)@, pre, i as nat));
                        assert(spec_step(pre) == (self@, Err::<(), GameboyError>(e)));
                        assert(exists|mp: GbModel, n: nat|
                            n < max_steps && reaches(old(self)@, mp, n) && spec_step(mp) == (
                                self@,
                                Err::<(), GameboyError>(e),
                            )) by {
                            assert(reaches(old(self)@, pre, i as nat) && spec_step(pre) == (
                                self@,
                                Err::<(), GameboyError>(e),
                            ));
                        }
                    }
                    return Some(e);
                },
            }
        }
        None
    }
}

} // verus!
