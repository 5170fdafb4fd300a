//! Neurons and fully-connected layers.

use crate::binary64::{is_within, product, rounded_product, rounded_sum, sum, within, ZERO};
use vstd::prelude::*;

verus! {

/// The pattern of `0.01`. Initial weights are drawn from `[-0.01, 0.01)`.
pub const INITIAL_BOUND: u64 = 0x3F84_7AE1_47AE_147B;

/// Whether every one of `draws` lies in `[-0.01, 0.01)`.
pub open spec fn initial_weights(draws: Seq<u64>) -> bool {
    forall|i: int| 0 <= i < draws.len() ==> within(#[trigger] draws[i], INITIAL_BOUND)
}

/// What a neuron is, mathematically: its weights in order, and its bias.
pub struct NeuronModel {
    pub weights: Seq<u64>,
    pub bias: u64,
}

/// The bias plus the first `n` terms `input[i] * weights[i]`, added one at
/// a time from index 0 upwards. Each product is rounded, then each sum.
pub open spec fn weighted_sum(bias: u64, input: Seq<u64>, weights: Seq<u64>, n: nat) -> u64
    decreases n,
{
    if n == 0 {
        bias
    } else {
        rounded_sum(
            weighted_sum(bias, input, weights, (n - 1) as nat),
            rounded_product(input[n - 1], weights[n - 1]),
        )
    }
}

impl NeuronModel {
    /// The output of the neuron on `input`: the weighted sum over all of
    /// its weights.
    pub open spec fn forward(self, input: Seq<u64>) -> u64 {
        weighted_sum(self.bias, input, self.weights, self.weights.len())
    }
}

/// A neuron of `SIZE` inputs.
#[derive(Clone, Copy, Debug)]
pub struct Neuron<const SIZE: usize> {
    weights: [u64; SIZE],
    bias: u64,
}

impl<const SIZE: usize> View for Neuron<SIZE> {
    type V = NeuronModel;

    closed spec fn view(&self) -> NeuronModel {
        NeuronModel { weights: self.weights@, bias: self.bias }
    }
}

impl<const SIZE: usize> Neuron<SIZE> {
    /// A neuron with the given weights and bias.
    pub fn new(weights: [u64; SIZE], bias: u64) -> (neuron: Self)
        ensures
            neuron@ == (NeuronModel { weights: weights@, bias }),
    {
        Self { weights, bias }
    }

    /// A neuron as it is before it has learnt anything: its weights are the
    /// given draws, its bias is zero. The draws must come from
    /// `[-0.01, 0.01)`; there is no neuron if one of them does not.
    pub fn from_draws(draws: [u64; SIZE]) -> (neuron: Option<Self>)
        ensures
            neuron is Some <==> initial_weights(draws@),
            neuron matches Some(n) ==> n@ == (NeuronModel { weights: draws@, bias: ZERO }),
            neuron matches Some(n) ==> initial_weights(n@.weights) && n@.bias == ZERO,
    {
        let mut i: usize = 0;
        while i < SIZE
            invariant
                i <= SIZE,
                forall|j: int| 0 <= j < i ==> within(#[trigger] draws@[j], INITIAL_BOUND),
            decreases SIZE - i,
        {
            if !is_within(draws[i], INITIAL_BOUND) {
                return None;
            }
            i += 1;
        }
        Some(Self { weights: draws, bias: ZERO })
    }

    /// Every neuron of this type has exactly `SIZE` weights.
    pub proof fn lemma_width(self)
        ensures
            self@.weights.len() == SIZE,
    {
    }

    /// The bias plus the sum of `input[i] * weights[i]`, accumulated in
    /// index order.
    pub fn forward(&self, input: [u64; SIZE]) -> (output: u64)
        ensures
            output == self@.forward(input@),
    {
        let mut result = self.bias;
        let mut i: usize = 0;
        while i < SIZE
            invariant
                i <= SIZE,
                result == weighted_sum(self.bias, input@, self.weights@, i as nat),
            decreases SIZE - i,
        {
            result = sum(result, product(input[i], self.weights[i]));
            i += 1;
        }
        result
    }
}

/// What a layer is, mathematically: its neurons in order.
pub struct LayerModel {
    pub neurons: Seq<NeuronModel>,
}

impl LayerModel {
    /// One output per neuron, in the order of the neurons, each neuron
    /// applied to the same `input`.
    pub open spec fn forward_sample(self, input: Seq<u64>) -> Seq<u64> {
        Seq::new(self.neurons.len(), |i: int| self.neurons[i].forward(input))
    }

    /// One output vector per sample, in the order of the samples.
    pub open spec fn forward_batch(self, batch: Seq<Seq<u64>>) -> Seq<Seq<u64>> {
        Seq::new(batch.len(), |k: int| self.forward_sample(batch[k]))
    }
}

/// A layer of `OUTPUT` neurons, each of `INPUT` inputs.
#[derive(Clone, Copy, Debug)]
pub struct Layer<const INPUT: usize, const OUTPUT: usize> {
    neurons: [Neuron<INPUT>; OUTPUT],
}

impl<const INPUT: usize, const OUTPUT: usize> View for Layer<INPUT, OUTPUT> {
    type V = LayerModel;

    closed spec fn view(&self) -> LayerModel {
        LayerModel { neurons: Seq::new(OUTPUT as nat, |i: int| self.neurons@[i]@) }
    }
}

impl<const INPUT: usize, const OUTPUT: usize> Layer<INPUT, OUTPUT> {
    /// A layer made of the given neurons, in the given order.
    pub fn new(neurons: [Neuron<INPUT>; OUTPUT]) -> (layer: Self)
        ensures
            layer@.neurons == Seq::new(OUTPUT as nat, |i: int| neurons@[i]@),
    {
        Self { neurons }
    }

    /// A layer as it is before it has learnt anything: neuron `i` has the
    /// weights `draws[i]` and bias zero. All draws must come from
    /// `[-0.01, 0.01)`; there is no layer if one of them does not.
    pub fn from_draws(draws: [[u64; INPUT]; OUTPUT]) -> (layer: Option<Self>)
        ensures
            layer is Some <==> forall|i: int|
                0 <= i < OUTPUT ==> initial_weights(#[trigger] draws@[i]@),
            layer matches Some(l) ==> l@.neurons == Seq::new(
                OUTPUT as nat,
                |i: int| (NeuronModel { weights: draws@[i]@, bias: ZERO }),
            ),
            layer matches Some(l) ==> forall|i: int|
                0 <= i < OUTPUT ==> initial_weights((#[trigger] l@.neurons[i]).weights)
                    && l@.neurons[i].bias == ZERO,
    {
        let mut neurons = [Neuron { weights: [ZERO; INPUT], bias: ZERO }; OUTPUT];
        let mut i: usize = 0;
        while i < OUTPUT
            invariant
                i <= OUTPUT,
                forall|j: int| 0 <= j < i ==> initial_weights(#[trigger] draws@[j]@),
                forall|j: int|
                    0 <= j < i ==> (#[trigger] neurons@[j])@ == (NeuronModel {
                        weights: draws@[j]@,
                        bias: ZERO,
                    }),
            decreases OUTPUT - i,
        {
            match Neuron::from_draws(draws[i]) {
                Some(neuron) => {
                    neurons[i] = neuron;
                },
                None => {
                    return None;
                },
            }
            i += 1;
        }
        let layer = Self { neurons };
        assert(layer@.neurons =~= Seq::new(
            OUTPUT as nat,
            |i: int| (NeuronModel { weights: draws@[i]@, bias: ZERO }),
        ));
        Some(layer)
    }

    /// Every layer of this type has exactly `OUTPUT` neurons, each of
    /// exactly `INPUT` weights.
    pub proof fn lemma_shape(self)
        ensures
            self@.neurons.len() == OUTPUT,
            forall|i: int| 0 <= i < OUTPUT ==> (#[trigger] self@.neurons[i]).weights.len() == INPUT,
    {
    }

    /// The outputs of all neurons on one sample, in the order of the neurons.
    pub fn forward_sample(&self, input: [u64; INPUT]) -> (outputs: [u64; OUTPUT])
        ensures
            outputs@ == self@.forward_sample(input@),
            forall|i: int|
                0 <= i < OUTPUT ==> #[trigger] outputs@[i] == self@.neurons[i].forward(input@),
    {
        let mut outputs = [0u64; OUTPUT];
        let mut i: usize = 0;
        while i < OUTPUT
            invariant
                i <= OUTPUT,
                forall|j: int| 0 <= j < i ==> outputs@[j] == self@.neurons[j].forward(input@),
            decreases OUTPUT - i,
        {
            outputs[i] = self.neurons[i].forward(input);
            i += 1;
        }
        outputs
    }

    /// The outputs of the layer on every sample of a batch, in the order of
    /// the samples.
    pub fn forward_batch(&self, input: Vec<[u64; INPUT]>) -> (output: Vec<[u64; OUTPUT]>)
        ensures
            output@.len() == input@.len(),
            forall|k: int|
                0 <= k < input@.len() ==> (#[trigger] output@[k])@ == self@.forward_sample(
                    input@[k]@,
                ),
            output.deep_view() == self@.forward_batch(input.deep_view()),
    {
        let mut output: Vec<[u64; OUTPUT]> = Vec::new();
        let mut k: usize = 0;
        while k < input.len()
            invariant
                k <= input.len(),
                output.len() == k,
                forall|j: int| 0 <= j < k ==> output@[j]@ == self@.forward_sample(input@[j]@),
            decreases input.len() - k,
        {
            output.push(self.forward_sample(input[k]));
            k += 1;
        }
        proof {
            assert forall|j: int| 0 <= j < k implies #[trigger] output.deep_view()[j]
                == self@.forward_sample(input.deep_view()[j]) by {
                assert(output@[j].deep_view() =~= output@[j]@);
                assert(input@[j].deep_view() =~= input@[j]@);
            }
        }
        output
    }
}

/// The outputs of a layer come in the order of its neurons: if the neurons
/// are rearranged, so that place `i` holds the neuron that was at place
/// `order[i]`, then on every input place `i` of the output holds what was at
/// place `order[i]` before.
pub proof fn lemma_outputs_follow_neurons(layer: LayerModel, order: Seq<int>, input: Seq<u64>)
    requires
        forall|i: int| 0 <= i < order.len() ==> 0 <= #[trigger] order[i] < layer.neurons.len(),
    ensures
        (LayerModel {
            neurons: Seq::new(order.len(), |i: int| layer.neurons[order[i]]),
        }).forward_sample(input) == Seq::new(
            order.len(),
            |i: int| layer.forward_sample(input)[order[i]],
        ),
{
    let rearranged = LayerModel {
        neurons: Seq::new(order.len(), |i: int| layer.neurons[order[i]]),
    };
    assert(rearranged.forward_sample(input) =~= Seq::new(
        order.len(),
        |i: int| layer.forward_sample(input)[order[i]],
    ));
}

/// A batch of one sample gives one output, the output of that sample.
pub proof fn lemma_batch_of_one<const INPUT: usize, const OUTPUT: usize>(
    layer: Layer<INPUT, OUTPUT>,
    sample: [u64; INPUT],
)
    ensures
        layer@.forward_batch(seq![sample@]) == seq![layer@.forward_sample(sample@)],
{
    assert(layer@.forward_batch(seq![sample@]) =~= seq![layer@.forward_sample(sample@)]);
}

/// Feeding the outputs of one layer on a batch to a second layer gives, at
/// every place of the batch, what the second layer makes of what the first
/// layer makes of the sample at that place.
pub proof fn lemma_chained_batches<const INPUT: usize, const HIDDEN: usize, const OUTPUT: usize>(
    first: Layer<INPUT, HIDDEN>,
    second: Layer<HIDDEN, OUTPUT>,
    batch: Seq<Seq<u64>>,
)
    ensures
        second@.forward_batch(first@.forward_batch(batch)) == Seq::new(
            batch.len(),
            |k: int| second@.forward_sample(first@.forward_sample(batch[k])),
        ),
{
    assert(second@.forward_batch(first@.forward_batch(batch)) =~= Seq::new(
        batch.len(),
        |k: int| second@.forward_sample(first@.forward_sample(batch[k])),
    ));
}

} // verus!
