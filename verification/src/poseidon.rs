//! A circuit for a sponge permutation in the style of Poseidon: a private
//! message of fixed length, and its hash as the one public input.

use vstd::prelude::*;
use crate::backend::{field_pow5, poseidon_hash, poseidon_image, ColumnKind};
use crate::error::{AssignmentError, StructuralError};
use crate::felt::{pow5_mod, Felt};
use crate::region::{lemma_not_in_run, offer, refusal_of, Cell, Limb, WitnessRegion};
use crate::registry::{AdviceColumn, FixedColumn, InstanceColumn, Registry};

verus! {

/// The table size of the circuit: `2^K` rows.
pub const K: u32 = 7;

/// The parameters of the permutation: an `x^5` S-box, 8 full rounds and 56
/// partial rounds, for a state of `WIDTH` field elements of which `RATE`
/// absorb the message.
#[derive(Clone, Copy, Debug)]
pub struct MySpec<const WIDTH: usize, const RATE: usize>;

impl<const WIDTH: usize, const RATE: usize> MySpec<WIDTH, RATE> {
    /// The number of rounds that apply the S-box to the whole state.
    pub fn full_rounds() -> (r: usize)
        ensures
            r == 8,
    {
        8
    }

    /// The number of rounds that apply the S-box to one state element.
    pub fn partial_rounds() -> (r: usize)
        ensures
            r == 56,
    {
        56
    }

    /// The S-box: the fifth power in the field.
    pub fn sbox(val: Felt) -> (r: Felt)
        ensures
            r.value() == pow5_mod(val.value()),
    {
        field_pow5(&val)
    }

    /// Which of the candidate mixing matrices is taken: the first.
    pub fn secure_mds() -> (r: usize)
        ensures
            r == 0,
    {
        0
    }
}

/// An instance of the circuit: the message, or `None` where no witness is
/// known.
#[derive(Clone, Copy, Debug)]
pub struct HashCircuit<const WIDTH: usize, const RATE: usize, const L: usize> {
    pub message: Option<[Felt; L]>,
}

/// The columns of the circuit. `input` holds the first `RATE` columns of
/// `state`; the others are what the permutation chip is configured with.
#[derive(Clone, Debug)]
pub struct MyConfig<const WIDTH: usize, const RATE: usize, const L: usize> {
    pub input: Vec<AdviceColumn>,
    pub expected: InstanceColumn,
    pub state: Vec<AdviceColumn>,
    pub partial_sbox: AdviceColumn,
    pub rc_a: Vec<FixedColumn>,
    pub rc_b: Vec<FixedColumn>,
}

/// A witnessed circuit with the public inputs it is proved against.
#[derive(Clone, Debug)]
pub struct Statement<const WIDTH: usize, const RATE: usize, const L: usize> {
    pub circuit: HashCircuit<WIDTH, RATE, L>,
    pub public_inputs: Vec<Felt>,
}

/// Why no circuit of this shape can be declared in a registry with the given
/// counts of columns, if none can.
///
/// The shape is sound when the rate is one less than the width and the
/// message fills the rate. The circuit then needs `width + 1` advice columns,
/// one instance column and twice `width` fixed columns.
pub open spec fn configure_refusal(
    advice: nat,
    fixed: nat,
    instance: nat,
    width: usize,
    rate: usize,
    arity: usize,
) -> Option<StructuralError> {
    if rate + 1 != width || arity != rate {
        Some(StructuralError::ShapeMismatch { width, rate, arity })
    } else if advice + width + 1 > usize::MAX {
        Some(StructuralError::ColumnLimit { kind: ColumnKind::Advice })
    } else if instance + 1 > usize::MAX {
        Some(StructuralError::ColumnLimit { kind: ColumnKind::Instance })
    } else if fixed + 2 * width > usize::MAX {
        Some(StructuralError::ColumnLimit { kind: ColumnKind::Fixed })
    } else {
        None
    }
}

impl<const WIDTH: usize, const RATE: usize, const L: usize> MyConfig<WIDTH, RATE, L> {
    /// There is one input column per message word, and no column twice.
    pub open spec fn wf(&self) -> bool {
        &&& self.input@.len() == L
        &&& forall|i: int, j: int|
            0 <= i < j < L ==> (#[trigger] self.input@[i]).position() != (
            #[trigger] self.input@[j]).position()
    }

    /// The columns sit where a registry with the given counts puts them: the
    /// state columns first among the advice columns, then the partial S-box
    /// column; the two rows of round-constant columns one after the other
    /// among the fixed columns; the expected hash in the next instance column.
    pub open spec fn laid_out(&self, advice: nat, fixed: nat, instance: nat) -> bool {
        &&& self.state@.len() == WIDTH
        &&& forall|i: int| 0 <= i < WIDTH ==> (#[trigger] self.state@[i]).position() == advice + i
        &&& self.input@.len() == L
        &&& L <= WIDTH
        &&& forall|i: int| 0 <= i < L ==> #[trigger] self.input@[i] == self.state@[i]
        &&& self.expected.position() == instance
        &&& self.partial_sbox.position() == advice + WIDTH
        &&& self.rc_a@.len() == WIDTH
        &&& forall|i: int| 0 <= i < WIDTH ==> (#[trigger] self.rc_a@[i]).position() == fixed + i
        &&& self.rc_b@.len() == WIDTH
        &&& forall|i: int| 0 <= i < WIDTH ==> (#[trigger] self.rc_b@[i]).position() == fixed + WIDTH + i
    }
}

/// The layout is determined by the shape and by the registry's counts: two
/// configurations laid out from the same counts have every column at the
/// same position.
pub proof fn lemma_layout_is_determined<const WIDTH: usize, const RATE: usize, const L: usize>(
    a: MyConfig<WIDTH, RATE, L>,
    b: MyConfig<WIDTH, RATE, L>,
    advice: nat,
    fixed: nat,
    instance: nat,
)
    requires
        a.laid_out(advice, fixed, instance),
        b.laid_out(advice, fixed, instance),
    ensures
        a.expected.position() == b.expected.position(),
        a.partial_sbox.position() == b.partial_sbox.position(),
        forall|i: int| 0 <= i < WIDTH ==> (#[trigger] a.state@[i]).position() == b.state@[i].position(),
        forall|i: int| 0 <= i < L ==> (#[trigger] a.input@[i]).position() == b.input@[i].position(),
        forall|i: int| 0 <= i < WIDTH ==> (#[trigger] a.rc_a@[i]).position() == b.rc_a@[i].position(),
        forall|i: int| 0 <= i < WIDTH ==> (#[trigger] a.rc_b@[i]).position() == b.rc_b@[i].position(),
{
    assert forall|i: int| 0 <= i < L implies (#[trigger] a.input@[i]).position()
        == b.input@[i].position() by {
        assert(a.input@[i] == a.state@[i]);
        assert(b.input@[i] == b.state@[i]);
        if i < WIDTH {
            assert(a.state@[i].position() == advice + i);
            assert(b.state@[i].position() == advice + i);
        }
    }
}

impl<const WIDTH: usize, const RATE: usize, const L: usize> HashCircuit<WIDTH, RATE, L> {
    /// The cell that the `i`-th message word goes to: row 0 of the `i`-th
    /// input column.
    pub open spec fn word_cell(config: &MyConfig<WIDTH, RATE, L>, i: int) -> Cell {
        Cell { column: config.input@[i].position(), offset: 0 }
    }

    /// The cells of the first `n` message words.
    pub open spec fn word_cells(config: &MyConfig<WIDTH, RATE, L>, n: nat) -> Seq<Cell> {
        Seq::new(n, |i: int| Self::word_cell(config, i))
    }

    /// The `i`-th message word, or `None` where no witness is known.
    pub open spec fn word(&self, i: int) -> Option<Felt> {
        match self.message {
            Some(message) => Some(message@[i]),
            None => None,
        }
    }

    /// The offers of the first `n` message words, each for its cell.
    pub open spec fn word_offers(&self, config: &MyConfig<WIDTH, RATE, L>, n: nat) -> Seq<
        (nat, nat, Option<Felt>),
    > {
        Seq::new(n, |i: int| offer(Self::word_cell(config, i), self.word(i)))
    }

    /// An instance of the same shape whose message is not known.
    pub fn without_witnesses(&self) -> (r: Self)
        ensures
            r.message is None,
    {
        HashCircuit { message: None }
    }

    /// Declares the circuit's columns, in this order: `WIDTH` advice columns
    /// for the state, the instance column for the expected hash, with
    /// equality enabled on it, the advice column of the partial S-box, and
    /// two rows of `WIDTH` fixed columns for the round constants, of which
    /// the first column of the second row holds the global constants.
    ///
    /// Fails, and leaves the registry as it was, exactly when
    /// [`configure_refusal`] names an error, and with that error.
    pub fn configure(registry: &mut Registry) -> (r: Result<
        MyConfig<WIDTH, RATE, L>,
        StructuralError,
    >)
        requires
            old(registry).wf(),
        ensures
            final(registry).wf(),
            match configure_refusal(
                old(registry).count(ColumnKind::Advice),
                old(registry).count(ColumnKind::Fixed),
                old(registry).count(ColumnKind::Instance),
                WIDTH,
                RATE,
                L,
            ) {
                Some(e) => {
                    &&& r is Err
                    &&& r->Err_0 == e
                    &&& forall|kind: ColumnKind|
                        final(registry).count(kind) == old(registry).count(kind)
                    &&& final(registry).equality() == old(registry).equality()
                },
                None => {
                    &&& r is Ok
                    &&& r->Ok_0.wf()
                    &&& r->Ok_0.laid_out(
                        old(registry).count(ColumnKind::Advice),
                        old(registry).count(ColumnKind::Fixed),
                        old(registry).count(ColumnKind::Instance),
                    )
                    &&& final(registry).count(ColumnKind::Advice) == old(registry).count(
                        ColumnKind::Advice,
                    ) + WIDTH + 1
                    &&& final(registry).count(ColumnKind::Fixed) == old(registry).count(
                        ColumnKind::Fixed,
                    ) + 2 * WIDTH
                    &&& final(registry).count(ColumnKind::Instance) == old(registry).count(
                        ColumnKind::Instance,
                    ) + 1
                    &&& final(registry).equality() == old(registry).equality().insert(
                        r->Ok_0.expected.id(),
                    ).insert(r->Ok_0.rc_b@[0].id())
                },
            },
    {
        if WIDTH == 0 || RATE != WIDTH - 1 || L != RATE {
            return Err(StructuralError::ShapeMismatch { width: WIDTH, rate: RATE, arity: L });
        }
        let advice: usize = registry.columns(ColumnKind::Advice);
        let fixed: usize = registry.columns(ColumnKind::Fixed);
        let instance: usize = registry.columns(ColumnKind::Instance);
        if advice > usize::MAX - WIDTH || advice + WIDTH > usize::MAX - 1 {
            return Err(StructuralError::ColumnLimit { kind: ColumnKind::Advice });
        }
        if instance > usize::MAX - 1 {
            return Err(StructuralError::ColumnLimit { kind: ColumnKind::Instance });
        }
        if fixed > usize::MAX - WIDTH || fixed + WIDTH > usize::MAX - WIDTH {
            return Err(StructuralError::ColumnLimit { kind: ColumnKind::Fixed });
        }
        let state = match registry.advice_columns(WIDTH) {
            Ok(columns) => columns,
            Err(e) => {
                return Err(e);
            },
        };
        let expected = match registry.instance_column() {
            Ok(column) => column,
            Err(e) => {
                return Err(e);
            },
        };
        match registry.enable_equality_instance(&expected) {
            Ok(()) => {},
            Err(e) => {
                return Err(e);
            },
        }
        let partial_sbox = match registry.advice_column() {
            Ok(column) => column,
            Err(e) => {
                return Err(e);
            },
        };
        let rc_a = match registry.fixed_columns(WIDTH) {
            Ok(columns) => columns,
            Err(e) => {
                return Err(e);
            },
        };
        let rc_b = match registry.fixed_columns(WIDTH) {
            Ok(columns) => columns,
            Err(e) => {
                return Err(e);
            },
        };
        match registry.enable_constant(&rc_b[0]) {
            Ok(()) => {},
            Err(e) => {
                return Err(e);
            },
        }
        let mut input: Vec<AdviceColumn> = Vec::new();
        let mut i: usize = 0;
        while i < L
            invariant
                L == RATE,
                RATE < WIDTH,
                state@.len() == WIDTH,
                i <= L,
                input@.len() == i,
                forall|j: int| 0 <= j < i ==> #[trigger] input@[j] == state@[j],
            decreases L - i,
        {
            input.push(state[i]);
            i += 1;
        }
        Ok(MyConfig { input, expected, state, partial_sbox, rc_a, rc_b })
    }

    /// Places the message into a region: word `i` at row 0 of the `i`-th
    /// input column; where the message is not known, the cells are offered
    /// without a value.
    ///
    /// On success there is one handle per word, in order, each with the word
    /// it carries and the cell it went to. The pass stops at the first cell
    /// that cannot be assigned: the words before it stay placed, and the
    /// error is the region's refusal of that cell, or else the backend's
    /// report. The backend is offered the words in order, up to and with the
    /// one it turns down, and handle `i` carries the cell that the backend
    /// handed out for word `i`. No constraint is asked for.
    pub fn load_message(&self, config: &MyConfig<WIDTH, RATE, L>, region: &mut WitnessRegion<'_>) -> (r:
        Result<Vec<Limb>, AssignmentError>)
        requires
            old(region).wf(),
            config.wf(),
        ensures
            final(region).wf(),
            final(region).capacity() == old(region).capacity(),
            final(region).grew_from(old(region)),
            ({
                let placed = final(region).ledger().len() - old(region).ledger().len();
                &&& 0 <= placed <= L
                &&& final(region).ledger() == old(region).ledger() + Self::word_cells(
                    config,
                    placed as nat,
                )
                &&& final(region).offers() == old(region).offers() + self.word_offers(
                    config,
                    (placed + if r is Err && r->Err_0 is Backend {
                        1int
                    } else {
                        0int
                    }) as nat,
                )
                &&& forall|j: int|
                    0 <= j < placed ==> refusal_of(
                        old(region).ledger(),
                        old(region).capacity(),
                        #[trigger] Self::word_cell(config, j),
                    ) is None
                &&& match r {
                    Ok(limbs) => {
                        &&& placed == L
                        &&& limbs@.len() == L
                        &&& forall|j: int|
                            0 <= j < L ==> (#[trigger] limbs@[j]).value == self.word(j)
                                && limbs@[j].at == Self::word_cell(config, j) && limbs@[j].cell
                                == final(region).cells_out()[old(region).cells_out().len() + j]
                    },
                    Err(e) => {
                        &&& placed < L
                        &&& match refusal_of(
                            old(region).ledger(),
                            old(region).capacity(),
                            Self::word_cell(config, placed),
                        ) {
                            Some(refusal) => e == refusal,
                            None => e is Backend,
                        }
                    },
                }
            }),
    {
        let ghost before = region.ledger();
        let ghost offers = region.offers();
        let ghost capacity = region.capacity();
        let mut limbs: Vec<Limb> = Vec::new();
        let mut i: usize = 0;
        let ghost out = region.cells_out();
        proof {
            assert(before + Self::word_cells(config, 0) =~= before);
            assert(offers + self.word_offers(config, 0) =~= offers);
            assert(out.subrange(0, out.len() as int) =~= out);
        }
        while i < L
            invariant
                region.wf(),
                config.wf(),
                region.capacity() == capacity,
                capacity == old(region).capacity(),
                before == old(region).ledger(),
                out == old(region).cells_out(),
                region.grew_from(old(region)),
                forall|j: int|
                    0 <= j < i ==> (#[trigger] limbs@[j]).cell == region.cells_out()[out.len() + j],
                offers == old(region).offers(),
                region.offers() == offers + self.word_offers(config, i as nat),
                i <= L,
                limbs@.len() == i,
                region.ledger() == before + Self::word_cells(config, i as nat),
                forall|j: int|
                    0 <= j < i ==> refusal_of(before, capacity, #[trigger] Self::word_cell(config, j))
                        is None,
                forall|j: int|
                    0 <= j < i ==> (#[trigger] limbs@[j]).value == self.word(j) && limbs@[j].at
                        == Self::word_cell(config, j),
            decreases L - i,
        {
            let value: Option<Felt> = match self.message {
                Some(message) => Some(message[i]),
                None => None,
            };
            let ghost cell = Self::word_cell(config, i as int);
            proof {
                let run = Self::word_cells(config, i as nat);
                assert(!run.contains(cell)) by {
                    if run.contains(cell) {
                        let k = choose|k: int| 0 <= k < run.len() && run[k] == cell;
                        assert(config.input@[k].position() != config.input@[i as int].position());
                    }
                }
                lemma_not_in_run(before, run, cell);
            }
            let ghost earlier = *region;
            let outcome = region.assign(&config.input[i], 0, value);
            proof {
                region.lemma_grew_on(&earlier, old(region));
                assert forall|j: int| 0 <= j < i implies (#[trigger] limbs@[j]).cell
                    == region.cells_out()[out.len() + j] by {
                    assert(region.cells_out().subrange(0, earlier.cells_out().len() as int)[out.len()
                        + j] == region.cells_out()[out.len() + j]);
                }
            }
            match outcome {
                Ok(limb) => {
                    proof {
                        assert((before + Self::word_cells(config, i as nat)).push(cell) =~= before
                            + Self::word_cells(config, (i + 1) as nat));
                        assert((offers + self.word_offers(config, i as nat)).push(
                            offer(cell, value),
                        ) =~= offers + self.word_offers(config, (i + 1) as nat));
                    }
                    limbs.push(limb);
                    i += 1;
                },
                Err(e) => {
                    proof {
                        if e is Backend {
                            assert((offers + self.word_offers(config, i as nat)).push(
                                offer(cell, value),
                            ) =~= offers + self.word_offers(config, (i + 1) as nat));
                        }
                    }
                    return Err(e);
                },
            }
        }
        Ok(limbs)
    }

    /// The statement that `message` hashes to `output`: the circuit that
    /// knows the message, to be proved against `output` as its one public
    /// input.
    pub fn statement(message: [Felt; L], output: Felt) -> (r: Statement<WIDTH, RATE, L>)
        ensures
            r.circuit.message == Some(message),
            r.public_inputs@ == seq![output],
    {
        let mut public_inputs: Vec<Felt> = Vec::new();
        public_inputs.push(output);
        Statement { circuit: HashCircuit { message: Some(message) }, public_inputs }
    }

    /// The true statement about `message`: its public input is the hash that
    /// the permutation makes of the message outside any circuit.
    ///
    /// The hash is that of the sponge of width 3 and rate 2, which is the
    /// shape the circuit must have; the sponge takes no empty message.
    pub fn witnessed(message: [Felt; L]) -> (r: Statement<WIDTH, RATE, L>)
        requires
            WIDTH == 3,
            RATE == 2,
            L > 0,
        ensures
            r.circuit.message == Some(message),
            r.public_inputs@ == seq![poseidon_image(message@)],
    {
        let output = poseidon_hash(&message);
        Self::statement(message, output)
    }
}

} // verus!
