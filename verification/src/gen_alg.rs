use vstd::prelude::*;
use crate::config::{ACTIONS, NN_RAYS, NN_RAY_LEN, SIZE_FULL, SIZE_HALF, SIZE_QTR};
use crate::random::random_in_range;
use crate::text::{occurs_in, text_contains};

verus! {

/// The four fully connected layers of the network a genome describes.
#[derive(Clone, Copy, Debug, PartialEq, Eq, Structural)]
pub enum Layer {
    First,
    Second,
    Third,
    Fourth,
}

/// Inputs of a layer.
pub open spec fn layer_inputs(l: Layer) -> nat {
    match l {
        Layer::First => SIZE_FULL as nat,
        Layer::Second => SIZE_HALF as nat,
        Layer::Third => SIZE_QTR as nat,
        Layer::Fourth => SIZE_QTR as nat,
    }
}

/// Outputs of a layer.
pub open spec fn layer_outputs(l: Layer) -> nat {
    match l {
        Layer::First => SIZE_HALF as nat,
        Layer::Second => SIZE_QTR as nat,
        Layer::Third => SIZE_QTR as nat,
        Layer::Fourth => ACTIONS as nat,
    }
}

/// The layer fed by a layer's outputs, if any.
pub open spec fn layer_after(l: Layer) -> Option<Layer> {
    match l {
        Layer::First => Some(Layer::Second),
        Layer::Second => Some(Layer::Third),
        Layer::Third => Some(Layer::Fourth),
        Layer::Fourth => None,
    }
}

impl Layer {
    /// The layers in the order the input flows through them.
    pub fn all() -> (ls: Vec<Layer>)
        ensures
            ls@ == seq![Layer::First, Layer::Second, Layer::Third, Layer::Fourth],
    {
        vec![Layer::First, Layer::Second, Layer::Third, Layer::Fourth]
    }

    /// The number of inputs of the layer.
    pub fn inputs(&self) -> (n: usize)
        ensures
            n == layer_inputs(*self),
    {
        match self {
            Layer::First => SIZE_FULL,
            Layer::Second => SIZE_HALF,
            Layer::Third => SIZE_QTR,
            Layer::Fourth => SIZE_QTR,
        }
    }

    /// The number of outputs of the layer.
    pub fn outputs(&self) -> (n: usize)
        ensures
            n == layer_outputs(*self),
    {
        match self {
            Layer::First => SIZE_HALF,
            Layer::Second => SIZE_QTR,
            Layer::Third => SIZE_QTR,
            Layer::Fourth => ACTIONS,
        }
    }

    /// The number of weights of the layer, one per input and output; the
    /// network reads them as an `outputs` by `inputs` matrix.
    pub fn weights_len(&self) -> (n: usize)
        ensures
            n == layer_inputs(*self) * layer_outputs(*self),
    {
        match self {
            Layer::First => SIZE_FULL * SIZE_HALF,
            Layer::Second => SIZE_HALF * SIZE_QTR,
            Layer::Third => SIZE_QTR * SIZE_QTR,
            Layer::Fourth => SIZE_QTR * ACTIONS,
        }
    }

    /// The number of biases of the layer, one per output. The genome file
    /// records this number as the size of the layer.
    pub fn biases_len(&self) -> (n: usize)
        ensures
            n == layer_outputs(*self),
    {
        self.outputs()
    }

    /// The key of the layer's weights in a genome file.
    pub fn weights_key(&self) -> (s: &'static str)
        ensures
            s@ == match *self {
                Layer::First => "first_layer_ws"@,
                Layer::Second => "second_layer_ws"@,
                Layer::Third => "third_layer_ws"@,
                Layer::Fourth => "fourth_layer_ws"@,
            },
    {
        match self {
            Layer::First => "first_layer_ws",
            Layer::Second => "second_layer_ws",
            Layer::Third => "third_layer_ws",
            Layer::Fourth => "fourth_layer_ws",
        }
    }

    /// The key of the layer's biases in a genome file.
    pub fn biases_key(&self) -> (s: &'static str)
        ensures
            s@ == match *self {
                Layer::First => "first_layer_bs"@,
                Layer::Second => "second_layer_bs"@,
                Layer::Third => "third_layer_bs"@,
                Layer::Fourth => "fourth_layer_bs"@,
            },
    {
        match self {
            Layer::First => "first_layer_bs",
            Layer::Second => "second_layer_bs",
            Layer::Third => "third_layer_bs",
            Layer::Fourth => "fourth_layer_bs",
        }
    }

    /// The name of the layer in a genome file (`first_layer`, ...), under
    /// which the file records the layer's size.
    pub fn name(&self) -> (s: &'static str)
        ensures
            s@ == match *self {
                Layer::First => "first_layer"@,
                Layer::Second => "second_layer"@,
                Layer::Third => "third_layer"@,
                Layer::Fourth => "fourth_layer"@,
            },
    {
        match self {
            Layer::First => "first_layer",
            Layer::Second => "second_layer",
            Layer::Third => "third_layer",
            Layer::Fourth => "fourth_layer",
        }
    }
}

/// The layers chain up: each layer's outputs are the next layer's inputs;
/// the first layer reads the whole sensory grid of one kind and the last one
/// scores the actions.
pub proof fn lemma_layers_chain(l: Layer)
    ensures
        layer_after(l) matches Some(n) ==> layer_outputs(l) == layer_inputs(n),
        layer_inputs(Layer::First) == NN_RAYS * NN_RAY_LEN,
        layer_outputs(Layer::Fourth) == ACTIONS,
        layer_inputs(Layer::First) == 288 && layer_outputs(Layer::First) == 144,
        layer_outputs(Layer::Second) == 72 && layer_outputs(Layer::Third) == 72,
{
}

/// How the weights of a fresh genome are drawn.
#[derive(Clone, Copy, Debug, PartialEq, Eq, Structural)]
pub enum GeneInit {
    /// Sparse, uniform in `(-MAX_WEIGHT_BIAS, MAX_WEIGHT_BIAS)`.
    Uniform,
    /// Normally distributed.
    Normal,
}

/// A fresh genome to be drawn and stored for the model `model`.
pub struct GenomeRequest {
    pub model: String,
    pub init: GeneInit,
}

/// Plans `nr` pairs of fresh genomes for `for_model`: one uniform and one
/// normal genome per pair, in that order. A non-positive `nr` plans nothing.
pub fn create_new_ws_bs(nr: i64, for_model: &str) -> (plan: Vec<GenomeRequest>)
    ensures
        plan@.len() == if nr > 0 { 2 * nr } else { 0 },
        forall|i: int| 0 <= i < plan@.len() ==> (#[trigger] plan@[i]).model@ == for_model@,
        forall|i: int|
            0 <= i < plan@.len() ==> (#[trigger] plan@[i]).init == if i % 2 == 0 {
                GeneInit::Uniform
            } else {
                GeneInit::Normal
            },
{
    let mut plan: Vec<GenomeRequest> = Vec::new();
    let mut k: i64 = 0;
    while k < nr
        invariant
            0 <= k,
            nr > 0 ==> k <= nr,
            nr <= 0 ==> k == 0,
            plan@.len() == 2 * k,
            forall|i: int| 0 <= i < plan@.len() ==> (#[trigger] plan@[i]).model@ == for_model@,
            forall|i: int|
                0 <= i < plan@.len() ==> (#[trigger] plan@[i]).init == if i % 2 == 0 {
                    GeneInit::Uniform
                } else {
                    GeneInit::Normal
                },
        decreases nr - k,
    {
        plan.push(GenomeRequest { model: String::from_str(for_model), init: GeneInit::Uniform });
        plan.push(GenomeRequest { model: String::from_str(for_model), init: GeneInit::Normal });
        k = k + 1;
    }
    plan
}

/// Whether a directory entry named `file_name` holds a genome: anything but
/// the folder metadata some systems leave behind (`DS_Store`).
pub fn is_gene_file(file_name: &str) -> (b: bool)
    ensures
        b == !occurs_in(file_name@, "DS_Store"@),
{
    !text_contains(file_name, "DS_Store")
}

/// The child of a one-point crossover: the genes of `first` before `cut`,
/// then the genes of `second` from `cut` up to the length of `first`.
pub open spec fn spliced<T>(first: Seq<T>, second: Seq<T>, cut: int) -> Seq<T> {
    first.take(cut) + second.subrange(cut, first.len() as int)
}

/// One-point crossover of two parents' genes for one array of the genome.
/// The child is as long as `first`; `second` must be at least as long.
pub fn splice_genes<T: Copy>(first: &Vec<T>, second: &Vec<T>, cut: usize) -> (child: Vec<T>)
    requires
        cut <= first.len() <= second.len(),
    ensures
        child@ == spliced(first@, second@, cut as int),
        child@.len() == first@.len(),
        forall|i: int| 0 <= i < cut ==> child@[i] == first@[i],
        forall|i: int| cut <= i < first@.len() ==> child@[i] == second@[i],
{
    let mut child: Vec<T> = Vec::new();
    let n: usize = first.len();
    let mut i: usize = 0;
    while i < n
        invariant
            n == first@.len(),
            cut <= n <= second@.len(),
            i <= n,
            child@.len() == i,
            forall|j: int| 0 <= j < i && j < cut ==> child@[j] == first@[j],
            forall|j: int| cut <= j < i ==> child@[j] == second@[j],
        decreases n - i,
    {
        if i < cut {
            child.push(first[i]);
        } else {
            child.push(second[i]);
        }
        i = i + 1;
    }
    assert(child@ =~= spliced(first@, second@, cut as int));
    child
}

/// Crossing a genome with itself gives it back, wherever the cut falls; a
/// cut at the start copies the second parent and one at the end copies the
/// first.
pub proof fn lemma_splice_identities<T>(a: Seq<T>, b: Seq<T>, cut: int)
    requires
        0 <= cut <= a.len() <= b.len(),
    ensures
        spliced(a, a, cut) == a,
        spliced(a, b, 0) == b.take(a.len() as int),
        spliced(a, b, a.len() as int) == a,
        spliced(a, b, cut).len() == a.len(),
{
    assert(spliced(a, a, cut) =~= a);
    assert(spliced(a, b, 0) =~= b.take(a.len() as int));
    assert(spliced(a, b, a.len() as int) =~= a);
}

/// Draws `count` positions of a gene of length `len` to mutate, each
/// uniformly at random; a position may come up more than once. A gene with
/// no positions can only take no mutations.
pub fn mutation_sites(len: usize, count: i64) -> (sites: Vec<usize>)
    requires
        count > 0 ==> len > 0,
        len <= i64::MAX,
    ensures
        sites@.len() == if count > 0 { count } else { 0 },
        forall|i: int| 0 <= i < sites@.len() ==> #[trigger] sites@[i] < len,
{
    let mut sites: Vec<usize> = Vec::new();
    let mut k: i64 = 0;
    while k < count
        invariant
            0 <= k,
            count > 0 ==> k <= count && len > 0,
            count <= 0 ==> k == 0,
            len <= i64::MAX,
            sites@.len() == k,
            forall|i: int| 0 <= i < sites@.len() ==> #[trigger] sites@[i] < len,
        decreases count - k,
    {
        let site: usize = random_in_range(0, len as i64) as usize;
        sites.push(site);
        k = k + 1;
    }
    sites
}

/// Four genome files drawn at random, with repetition, from `n` files: two
/// pairs that each compete for one parent slot.
pub fn tournament_entrants(n: usize) -> (e: (usize, usize, usize, usize))
    requires
        0 < n <= i64::MAX,
    ensures
        e.0 < n && e.1 < n && e.2 < n && e.3 < n,
{
    let a: usize = random_in_range(0, n as i64) as usize;
    let b: usize = random_in_range(0, n as i64) as usize;
    let c: usize = random_in_range(0, n as i64) as usize;
    let d: usize = random_in_range(0, n as i64) as usize;
    (a, b, c, d)
}

/// One of two competitors.
#[derive(Clone, Copy, Debug, PartialEq, Eq, Structural)]
pub enum Contender {
    First,
    Second,
}

/// Who wins a pairing of the tournament. When the round favours fitness
/// (`max_fit`) the fitter genome wins, the first one on a tie; otherwise the
/// other one wins.
pub fn tournament_winner(first_at_least_as_fit: bool, max_fit: bool) -> (w: Contender)
    ensures
        w == if first_at_least_as_fit == max_fit {
            Contender::First
        } else {
            Contender::Second
        },
{
    if first_at_least_as_fit {
        if max_fit {
            Contender::First
        } else {
            Contender::Second
        }
    } else {
        if max_fit {
            Contender::Second
        } else {
            Contender::First
        }
    }
}

} // verus!
