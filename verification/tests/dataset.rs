use perceptron::dataset::{sine, spiral, spiral_angles, vertical};

fn pair(values: [f64; 2]) -> [u64; 2] {
    values.map(f64::to_bits)
}

#[test]
fn sine_divides_one_and_multiplies_the_full_turn() {
    let (inputs, labels) = sine(50);
    assert_eq!(inputs.len(), 50);
    assert_eq!(labels.len(), 50);
    for sample in 0..50usize {
        assert_eq!(inputs[sample], [(1.0 / sample as f64).to_bits()]);
        assert_eq!(
            labels[sample],
            [(2.0 * core::f64::consts::PI * sample as f64).to_bits()]
        );
    }
    assert_eq!(f64::from_bits(inputs[0][0]), f64::INFINITY);
    assert_eq!(f64::from_bits(inputs[4][0]), 0.25);
    assert_eq!(f64::from_bits(labels[0][0]), 0.0);
    assert_eq!(f64::from_bits(labels[1][0]), core::f64::consts::TAU);
}

#[test]
fn sine_of_no_samples_is_empty() {
    let (inputs, labels) = sine(0);
    assert!(inputs.is_empty());
    assert!(labels.is_empty());
}

#[test]
fn vertical_shifts_each_class_by_a_third() {
    let samples = 4usize;
    let classes = 3usize;
    let noise: Vec<[f64; 2]> = (0..samples * classes)
        .map(|k| [0.01 * k as f64 - 0.05, 0.09 - 0.015 * k as f64])
        .collect();
    let (inputs, labels) =
        vertical(samples, classes, noise.iter().map(|n| pair(*n)).collect()).unwrap();
    assert_eq!(inputs.len(), 12);
    assert_eq!(labels.len(), 12);
    let mut k = 0;
    for class in 0..classes {
        for _ in 0..samples {
            let expected = [noise[k][0] + class as f64 / 3.0, noise[k][1] + 0.5];
            assert_eq!(inputs[k], pair(expected));
            assert_eq!(labels[k], [(class as f64).to_bits()]);
            k += 1;
        }
    }
    assert_eq!(f64::from_bits(labels[0][0]), 0.0);
    assert_eq!(f64::from_bits(labels[4][0]), 1.0);
    assert_eq!(f64::from_bits(labels[11][0]), 2.0);
}

#[test]
fn vertical_wants_noise_for_every_sample() {
    let some = |count: usize| vec![pair([0.0, 0.0]); count];
    assert!(vertical(4, 3, some(12)).is_some());
    assert!(vertical(4, 3, some(11)).is_none());
    assert!(vertical(4, 3, some(13)).is_none());
    assert!(vertical(4, 3, some(0)).is_none());
    assert!(vertical(usize::MAX, 2, some(3)).is_none());
}

#[test]
fn vertical_without_samples_or_classes_is_empty() {
    let (inputs, labels) = vertical(0, 3, Vec::new()).unwrap();
    assert!(inputs.is_empty() && labels.is_empty());
    let (inputs, labels) = vertical(5, 0, Vec::new()).unwrap();
    assert!(inputs.is_empty() && labels.is_empty());
    assert!(vertical(0, 3, vec![pair([0.0, 0.0])]).is_none());
}

#[test]
fn spiral_angles_turn_each_class_further() {
    let samples = 5usize;
    let classes = 3usize;
    let jitter: Vec<f64> = (0..samples * classes).map(|k| 0.02 * k as f64 - 0.19).collect();
    let angles =
        spiral_angles(samples, classes, jitter.iter().map(|j| j.to_bits()).collect()).unwrap();
    assert_eq!(angles.len(), 15);
    let mut k = 0;
    for class in 0..classes {
        for _ in 0..samples {
            let t = class as f64 * 4.0 + jitter[k];
            assert_eq!(angles[k], (t * 2.5).to_bits());
            k += 1;
        }
    }
    let plain = spiral_angles(1, 2, vec![0.0f64.to_bits(); 2]).unwrap();
    assert_eq!(f64::from_bits(plain[0]), 0.0);
    assert_eq!(f64::from_bits(plain[1]), 10.0);
}

#[test]
fn spiral_angles_want_jitter_for_every_sample() {
    assert!(spiral_angles(5, 3, vec![0; 15]).is_some());
    assert!(spiral_angles(5, 3, vec![0; 14]).is_none());
    assert!(spiral_angles(5, 3, vec![0; 16]).is_none());
    assert!(spiral_angles(usize::MAX, usize::MAX, vec![0; 1]).is_none());
    assert_eq!(spiral_angles(0, 3, Vec::new()), Some(Vec::new()));
}

#[test]
fn spiral_runs_outwards_along_each_arm() {
    let samples = 5usize;
    let classes = 3usize;
    let jitter: Vec<f64> = (0..samples * classes).map(|k| 0.19 - 0.025 * k as f64).collect();
    let angles =
        spiral_angles(samples, classes, jitter.iter().map(|j| j.to_bits()).collect()).unwrap();
    let waves: Vec<[f64; 2]> = angles
        .iter()
        .map(|angle| [f64::from_bits(*angle).sin(), f64::from_bits(*angle).cos()])
        .collect();
    let (inputs, labels) =
        spiral(samples, classes, waves.iter().map(|w| pair(*w)).collect()).unwrap();
    assert_eq!(inputs.len(), 15);
    assert_eq!(labels.len(), 15);
    let mut k = 0;
    for class in 0..classes {
        for sample in 0..samples {
            let r = 1.0 / samples as f64 * sample as f64;
            let t = class as f64 * 4.0 + jitter[k];
            let expected = [r * (t * 2.5).sin(), r * (t * 2.5).cos()];
            assert_eq!(inputs[k], pair(expected));
            assert_eq!(labels[k], [(class as f64).to_bits()]);
            k += 1;
        }
    }
    assert_eq!(inputs[0], pair([0.0 * waves[0][0], 0.0 * waves[0][1]]));
    assert_eq!(f64::from_bits(inputs[7][0]), 0.4 * waves[7][0]);
}

#[test]
fn spiral_wants_waves_for_every_sample() {
    let some = |count: usize| vec![pair([0.0, 1.0]); count];
    assert!(spiral(5, 3, some(15)).is_some());
    assert!(spiral(5, 3, some(5)).is_none());
    assert!(spiral(5, 3, some(16)).is_none());
    let (inputs, labels) = spiral(0, 7, Vec::new()).unwrap();
    assert!(inputs.is_empty() && labels.is_empty());
}
