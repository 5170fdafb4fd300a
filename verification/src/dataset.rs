//! Synthetic data to run a network on: inputs, and the label of each input.
//!
//! Samples of several classes are laid out class after class, `samples` of
//! each: the sample at place `k` is sample `k % samples` of class
//! `k / samples`. Whatever is random or trigonometric in a data set is
//! taken as an argument.

use crate::binary64::{
    from_count, product, quotient, rounded_count, rounded_product, rounded_quotient, rounded_sum,
    sum, FIVE_HALVES, FOUR, HALF, ONE, PI, THREE, TWO,
};
use vstd::prelude::*;

verus! {

/// Input `i` of the sine data: `1 / i`.
pub open spec fn sine_input(i: int) -> u64 {
    rounded_quotient(ONE, rounded_count(i as u64))
}

/// Label `i` of the sine data: `(2 * pi) * i`.
pub open spec fn sine_label(i: int) -> u64 {
    rounded_product(rounded_product(TWO, PI), rounded_count(i as u64))
}

/// The sine data: `samples` inputs `1 / i` and as many labels `2 * pi * i`,
/// for `i` from 0. The first input is `1 / 0`, which is infinite.
pub fn sine(samples: usize) -> (data: (Vec<[u64; 1]>, Vec<[u64; 1]>))
    ensures
        data.0@.len() == samples,
        data.1@.len() == samples,
        forall|i: int| 0 <= i < samples ==> (#[trigger] data.0@[i])@ == seq![sine_input(i)],
        forall|i: int| 0 <= i < samples ==> (#[trigger] data.1@[i])@ == seq![sine_label(i)],
{
    let mut inputs: Vec<[u64; 1]> = Vec::new();
    let mut labels: Vec<[u64; 1]> = Vec::new();
    let turn = product(TWO, PI);
    let mut i: usize = 0;
    while i < samples
        invariant
            i <= samples,
            turn == rounded_product(TWO, PI),
            inputs@.len() == i,
            labels@.len() == i,
            forall|j: int| 0 <= j < i ==> (#[trigger] inputs@[j])@ == seq![sine_input(j)],
            forall|j: int| 0 <= j < i ==> (#[trigger] labels@[j])@ == seq![sine_label(j)],
        decreases samples - i,
    {
        let x = from_count(i as u64);
        let input = [quotient(ONE, x)];
        let label = [product(turn, x)];
        assert(input@ =~= seq![sine_input(i as int)]);
        assert(label@ =~= seq![sine_label(i as int)]);
        inputs.push(input);
        labels.push(label);
        i += 1;
    }
    (inputs, labels)
}

/// The label of the sample at place `k`: the number of its class.
pub open spec fn class_label(k: int, samples: int) -> u64 {
    rounded_count((k / samples) as u64)
}

/// Whether `len` items are exactly `samples` items for each of `classes`
/// classes.
fn is_complete(len: usize, samples: usize, classes: usize) -> (complete: bool)
    ensures
        complete == (len == samples * classes),
{
    match samples.checked_mul(classes) {
        Some(count) => len == count,
        None => false,
    }
}

/// The label of the sample at place `k`, where every class has `samples`
/// samples.
fn label_at(k: usize, samples: usize) -> (label: u64)
    requires
        samples > 0,
    ensures
        label == class_label(k as int, samples as int),
{
    from_count((k / samples) as u64)
}

/// Input `k` of the vertical data, given the pair of random offsets for it:
/// `noise[0] + class / 3` and `noise[1] + 0.5`.
pub open spec fn vertical_input(k: int, samples: int, noise: Seq<u64>) -> Seq<u64> {
    seq![
        rounded_sum(noise[0], rounded_quotient(class_label(k, samples), THREE)),
        rounded_sum(noise[1], HALF),
    ]
}

/// The vertical data: one blob per class, the blobs side by side, a third
/// apart, all at height one half. `noise` holds the pair of random offsets
/// of each sample, and decides where in its blob the sample lies.
///
/// There is data exactly if `noise` holds `samples` pairs for each of the
/// `classes` classes.
pub fn vertical(samples: usize, classes: usize, noise: Vec<[u64; 2]>) -> (data: Option<
    (Vec<[u64; 2]>, Vec<[u64; 1]>),
>)
    ensures
        data is Some <==> noise@.len() == samples * classes,
        data matches Some((inputs, labels)) ==> inputs@.len() == noise@.len() && labels@.len()
            == noise@.len(),
        data matches Some((inputs, labels)) ==> forall|k: int|
            0 <= k < noise@.len() ==> (#[trigger] inputs@[k])@ == vertical_input(
                k,
                samples as int,
                noise@[k]@,
            ),
        data matches Some((inputs, labels)) ==> forall|k: int|
            0 <= k < noise@.len() ==> (#[trigger] labels@[k])@ == seq![
                class_label(k, samples as int),
            ],
{
    if !is_complete(noise.len(), samples, classes) {
        return None;
    }
    let mut inputs: Vec<[u64; 2]> = Vec::new();
    let mut labels: Vec<[u64; 1]> = Vec::new();
    let mut k: usize = 0;
    while k < noise.len()
        invariant
            k <= noise@.len(),
            noise@.len() == samples * classes,
            inputs@.len() == k,
            labels@.len() == k,
            forall|j: int|
                0 <= j < k ==> (#[trigger] inputs@[j])@ == vertical_input(
                    j,
                    samples as int,
                    noise@[j]@,
                ),
            forall|j: int|
                0 <= j < k ==> (#[trigger] labels@[j])@ == seq![class_label(j, samples as int)],
        decreases noise@.len() - k,
    {
        assert(samples > 0) by (nonlinear_arith)
            requires
                k < samples * classes,
        ;
        let class = label_at(k, samples);
        let offsets = noise[k];
        let input = [sum(offsets[0], quotient(class, THREE)), sum(offsets[1], HALF)];
        let label = [class];
        assert(input@ =~= vertical_input(k as int, samples as int, noise@[k as int]@));
        assert(label@ =~= seq![class_label(k as int, samples as int)]);
        inputs.push(input);
        labels.push(label);
        k += 1;
    }
    Some((inputs, labels))
}

/// The angle of the sample at place `k` of a spiral, given the random
/// `jitter` for it: `(class * 4 + jitter) * 2.5`.
pub open spec fn spiral_angle(k: int, samples: int, jitter: u64) -> u64 {
    rounded_product(
        rounded_sum(rounded_product(class_label(k, samples), FOUR), jitter),
        FIVE_HALVES,
    )
}

/// How far the sample at place `k` of a spiral lies from the centre:
/// `(1 / samples) * (k % samples)`.
pub open spec fn spiral_radius(k: int, samples: int) -> u64 {
    rounded_product(
        rounded_quotient(ONE, rounded_count(samples as u64)),
        rounded_count((k % samples) as u64),
    )
}

/// Input `k` of the spiral data, given the sine and the cosine of its
/// angle: `radius * wave[0]` and `radius * wave[1]`.
pub open spec fn spiral_input(k: int, samples: int, wave: Seq<u64>) -> Seq<u64> {
    seq![
        rounded_product(spiral_radius(k, samples), wave[0]),
        rounded_product(spiral_radius(k, samples), wave[1]),
    ]
}

/// The angles of the samples of the spiral data, one arm per class. `jitter`
/// holds the random part of each angle.
///
/// There are angles exactly if `jitter` holds `samples` numbers for each of
/// the `classes` classes.
pub fn spiral_angles(samples: usize, classes: usize, jitter: Vec<u64>) -> (angles: Option<
    Vec<u64>,
>)
    ensures
        angles is Some <==> jitter@.len() == samples * classes,
        angles matches Some(turns) ==> turns@.len() == jitter@.len(),
        angles matches Some(turns) ==> forall|k: int|
            0 <= k < jitter@.len() ==> #[trigger] turns@[k] == spiral_angle(
                k,
                samples as int,
                jitter@[k],
            ),
{
    if !is_complete(jitter.len(), samples, classes) {
        return None;
    }
    let mut angles: Vec<u64> = Vec::new();
    let mut k: usize = 0;
    while k < jitter.len()
        invariant
            k <= jitter@.len(),
            jitter@.len() == samples * classes,
            angles@.len() == k,
            forall|j: int|
                0 <= j < k ==> #[trigger] angles@[j] == spiral_angle(
                    j,
                    samples as int,
                    jitter@[j],
                ),
        decreases jitter@.len() - k,
    {
        assert(samples > 0) by (nonlinear_arith)
            requires
                k < samples * classes,
        ;
        let class = label_at(k, samples);
        angles.push(product(sum(product(class, FOUR), jitter[k]), FIVE_HALVES));
        k += 1;
    }
    Some(angles)
}

/// The spiral data: one arm per class, each arm running outwards from the
/// centre. `waves` holds, for each sample, the sine and the cosine of its
/// angle, the angles being those of [`spiral_angles`].
///
/// There is data exactly if `waves` holds `samples` pairs for each of the
/// `classes` classes.
pub fn spiral(samples: usize, classes: usize, waves: Vec<[u64; 2]>) -> (data: Option<
    (Vec<[u64; 2]>, Vec<[u64; 1]>),
>)
    ensures
        data is Some <==> waves@.len() == samples * classes,
        data matches Some((inputs, labels)) ==> inputs@.len() == waves@.len() && labels@.len()
            == waves@.len(),
        data matches Some((inputs, labels)) ==> forall|k: int|
            0 <= k < waves@.len() ==> (#[trigger] inputs@[k])@ == spiral_input(
                k,
                samples as int,
                waves@[k]@,
            ),
        data matches Some((inputs, labels)) ==> forall|k: int|
            0 <= k < waves@.len() ==> (#[trigger] labels@[k])@ == seq![
                class_label(k, samples as int),
            ],
{
    if !is_complete(waves.len(), samples, classes) {
        return None;
    }
    let mut inputs: Vec<[u64; 2]> = Vec::new();
    let mut labels: Vec<[u64; 1]> = Vec::new();
    let step = quotient(ONE, from_count(samples as u64));
    let mut k: usize = 0;
    while k < waves.len()
        invariant
            k <= waves@.len(),
            waves@.len() == samples * classes,
            step == rounded_quotient(ONE, rounded_count(samples as u64)),
            inputs@.len() == k,
            labels@.len() == k,
            forall|j: int|
                0 <= j < k ==> (#[trigger] inputs@[j])@ == spiral_input(
                    j,
                    samples as int,
                    waves@[j]@,
                ),
            forall|j: int|
                0 <= j < k ==> (#[trigger] labels@[j])@ == seq![class_label(j, samples as int)],
        decreases waves@.len() - k,
    {
        assert(samples > 0) by (nonlinear_arith)
            requires
                k < samples * classes,
        ;
        let class = label_at(k, samples);
        let radius = product(step, from_count((k % samples) as u64));
        let wave = waves[k];
        let input = [product(radius, wave[0]), product(radius, wave[1])];
        let label = [class];
        assert(input@ =~= spiral_input(k as int, samples as int, waves@[k as int]@));
        assert(label@ =~= seq![class_label(k as int, samples as int)]);
        inputs.push(input);
        labels.push(label);
        k += 1;
    }
    Some((inputs, labels))
}

} // verus!
