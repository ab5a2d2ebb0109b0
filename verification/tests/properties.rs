use fantazia::pitch::edo12::traits::{AbsQual, AcciByQual, PitchNotation, Qual};
use fantazia::pitch::edo12::{
    Acci, Interval, IntervalDeg, IntervalQual, NotationError, OInterval, OIntervalDeg, OPitch,
    OStep, Pitch, Step,
};
use fantazia::pitch::edo12::IntervalQual::{Augmented, Diminished, Major, Minor, Perfect};
use fantazia::traits::FromMod;
use std::cmp::Ordering;

const STEPS: [OStep; 7] = [
    OStep::C,
    OStep::D,
    OStep::E,
    OStep::F,
    OStep::G,
    OStep::A,
    OStep::B,
];

const DEGREES: [OIntervalDeg; 7] = [
    OIntervalDeg::Unison,
    OIntervalDeg::Second,
    OIntervalDeg::Third,
    OIntervalDeg::Fourth,
    OIntervalDeg::Fifth,
    OIntervalDeg::Sixth,
    OIntervalDeg::Seventh,
];

#[test]
fn diatonic_tones_follow_the_table() {
    let tones: Vec<i8> = STEPS.iter().map(|step| step.diatonic_tone()).collect();
    assert_eq!(tones, vec![0, 2, 4, 5, 7, 9, 11]);
    assert_eq!(Step(8).diatonic_tone(), 14);
    assert_eq!(Step(-1).diatonic_tone(), -1);
    assert_eq!(Step(-7).diatonic_tone(), -12);
}

#[test]
fn steps_split_by_floor_division() {
    assert_eq!(Step(0).into_ostep_and_octave(), (OStep::C, 0));
    assert_eq!(Step(6).into_ostep_and_octave(), (OStep::B, 0));
    assert_eq!(Step(7).into_ostep_and_octave(), (OStep::C, 1));
    assert_eq!(Step(-1).into_ostep_and_octave(), (OStep::B, -1));
    assert_eq!(Step(-7).into_ostep_and_octave(), (OStep::C, -1));
    assert_eq!(Step(-8).into_ostep_and_octave(), (OStep::B, -2));
    assert_eq!(Step(-128).octave(), -19);
    assert_eq!(Step(127).octave(), 18);
    for value in i8::MIN..=i8::MAX {
        let (ostep, octave) = Step(value).into_ostep_and_octave();
        assert_eq!(ostep.index() as i16 + 7 * octave as i16, value as i16);
    }
}

#[test]
fn degrees_round_trip_through_reduction() {
    for value in i8::MIN..=i8::MAX {
        let deg = IntervalDeg(value);
        let (odeg, octave) = deg.into_odeg_and_octave();
        assert_eq!(IntervalDeg::from_odeg_and_octave(odeg, octave), deg);
    }
    assert_eq!(
        IntervalDeg(-1).into_odeg_and_octave(),
        (OIntervalDeg::Seventh, -1)
    );
}

#[test]
fn pitches_round_trip_through_reduction() {
    for step in -70..=70i8 {
        for acci in -3..=3i8 {
            let natural = Step(step).diatonic_tone();
            let p = Pitch::from_step_and_tone(Step(step), natural + acci);
            let (opitch, octave) = p.into_opitch_and_octave();
            assert_eq!(Pitch::from_opitch_and_octave(opitch, octave), p);
            assert_eq!(OPitch::from(p), opitch);
            assert_eq!(opitch.acci(), Acci(acci));
        }
    }
    let p = Pitch::from_step_and_tone(Step(-5), -8);
    assert_eq!(
        p.into_opitch_and_octave(),
        (OPitch::from_step_and_tone(OStep::E, 4), -1)
    );
}

#[test]
fn circle_of_fifths_is_a_bijection() {
    for n in i8::MIN..=i8::MAX {
        assert_eq!(OPitch::from_co5_order(n).co5_order(), n);
    }
    assert_eq!(
        OPitch::from_co5_order(6),
        OPitch::from_step_and_tone(OStep::F, 6)
    );
    assert_eq!(
        OPitch::from_co5_order(-2),
        OPitch::from_step_and_tone(OStep::B, 10)
    );
    assert_eq!(
        OPitch::from_co5_order(-1),
        OPitch::from_step_and_tone(OStep::F, 5)
    );
    assert_eq!(
        OPitch::from_co5_order(14),
        OPitch::from_step_and_tone(OStep::C, 2)
    );
    let places: Vec<i8> = STEPS.iter().map(|step| step.co5_order()).collect();
    assert_eq!(places, vec![0, 2, 4, -1, 1, 3, 5]);
    for n in -50..=50i8 {
        assert_eq!(OStep::from_co5_order(n), OPitch::from_co5_order(n).step());
    }
}

#[test]
fn the_fifth_generates_the_circle() {
    for n in i8::MIN..=i8::MAX {
        assert_eq!(OPitch::g() * n, OPitch::from_co5_order(n));
        assert_eq!(OPitch::g().checked_mul(n), Some(OPitch::from_co5_order(n)));
    }
}

#[test]
fn every_opitch_has_an_additive_inverse() {
    for step in STEPS {
        for tone in i8::MIN..=i8::MAX {
            let p = OPitch::from_step_and_tone(step, tone);
            assert_eq!(p + (-p), OPitch::c());
            assert_eq!(p - p, OPitch::c());
        }
    }
}

#[test]
fn every_pitch_has_an_additive_inverse() {
    for step in [i8::MIN, -100, -8, -7, -1, 0, 1, 6, 7, 99, i8::MAX] {
        for tone in [i8::MIN, -13, -12, -1, 0, 1, 11, 12, 100, i8::MAX] {
            let p = Pitch::from_step_and_tone(Step(step), tone);
            let sum = p + (-p);
            assert_eq!(sum.step(), Step(0));
            assert_eq!(sum.tone(), 0);
        }
    }
}

#[test]
fn quality_and_accidental_are_inverse() {
    let mut quals = vec![
        IntervalQual::Perfect,
        IntervalQual::Major,
        IntervalQual::Minor,
    ];
    for n in 1..=20u8 {
        quals.push(IntervalQual::Augmented(n));
        quals.push(IntervalQual::Diminished(n));
    }
    for step in STEPS {
        let perfect = matches!(step, OStep::C | OStep::F | OStep::G);
        for qual in &quals {
            let valid = match qual {
                IntervalQual::Perfect => perfect,
                IntervalQual::Major | IntervalQual::Minor => !perfect,
                _ => true,
            };
            match step.acci_by_qual(*qual) {
                Some(acci) => {
                    assert!(valid);
                    assert_eq!(OPitch::new(step, acci).qual(), *qual);
                }
                None => assert!(!valid),
            }
        }
    }
    for step in STEPS {
        for acci in -30..=30i8 {
            let p = OPitch::new(step, Acci(acci));
            assert_eq!(step.acci_by_qual(p.qual()), Some(Acci(acci)));
        }
    }
}

#[test]
fn qualities_follow_the_class_of_the_step() {
    let f = |step, acci| OPitch::new(step, Acci(acci)).qual();
    assert_eq!(f(OStep::C, 0), IntervalQual::Perfect);
    assert_eq!(f(OStep::F, 1), IntervalQual::Augmented(1));
    assert_eq!(f(OStep::G, 2), IntervalQual::Augmented(2));
    assert_eq!(f(OStep::G, -1), IntervalQual::Diminished(1));
    assert_eq!(f(OStep::C, -3), IntervalQual::Diminished(3));
    assert_eq!(f(OStep::D, 0), IntervalQual::Major);
    assert_eq!(f(OStep::E, -1), IntervalQual::Minor);
    assert_eq!(f(OStep::A, 1), IntervalQual::Augmented(1));
    assert_eq!(f(OStep::B, -2), IntervalQual::Diminished(1));
    assert_eq!(f(OStep::B, -4), IntervalQual::Diminished(3));
    assert_eq!(
        Pitch::from_step_and_tone(Step(-5), -9).qual(),
        IntervalQual::Minor
    );
}

#[test]
fn accidentals_by_quality() {
    assert_eq!(
        OStep::C.acci_by_qual(IntervalQual::Perfect),
        Some(Acci::natural())
    );
    assert_eq!(OStep::C.acci_by_qual(IntervalQual::Minor), None);
    assert_eq!(OStep::F.acci_by_qual(IntervalQual::Major), None);
    assert_eq!(OStep::D.acci_by_qual(IntervalQual::Perfect), None);
    assert_eq!(
        OStep::D.acci_by_qual(IntervalQual::Major),
        Some(Acci::natural())
    );
    assert_eq!(
        OStep::D.acci_by_qual(IntervalQual::Minor),
        Some(Acci::flat())
    );
    assert_eq!(
        OStep::G.acci_by_qual(IntervalQual::Diminished(2)),
        Some(Acci(-2))
    );
    assert_eq!(
        OStep::A.acci_by_qual(IntervalQual::Diminished(2)),
        Some(Acci(-3))
    );
    assert_eq!(
        OStep::A.acci_by_qual(IntervalQual::Augmented(127)),
        Some(Acci(127))
    );
    assert_eq!(OStep::A.acci_by_qual(IntervalQual::Augmented(128)), None);
    assert_eq!(
        OStep::C.acci_by_qual(IntervalQual::Diminished(128)),
        Some(Acci(-128))
    );
    assert_eq!(OStep::A.acci_by_qual(IntervalQual::Diminished(128)), None);
    assert_eq!(
        Step(-6).acci_by_qual(IntervalQual::Minor),
        Some(Acci::flat())
    );
    assert_eq!(Step(7).acci_by_qual(IntervalQual::Minor), None);
    assert_eq!(
        OIntervalDeg::Fifth.acci_by_qual(IntervalQual::Augmented(1)),
        Some(Acci::sharp())
    );
    assert_eq!(
        IntervalDeg(9).acci_by_qual(IntervalQual::Minor),
        Some(Acci::flat())
    );
}

#[test]
fn invalid_pairings_are_rejected() {
    for deg in DEGREES {
        let perfect = matches!(
            deg,
            OIntervalDeg::Unison | OIntervalDeg::Fourth | OIntervalDeg::Fifth
        );
        for qual in [
            IntervalQual::Major,
            IntervalQual::Minor,
            IntervalQual::Perfect,
            IntervalQual::Augmented(1),
            IntervalQual::Diminished(1),
        ] {
            let valid = match qual {
                IntervalQual::Perfect => perfect,
                IntervalQual::Major | IntervalQual::Minor => !perfect,
                _ => true,
            };
            let reduced = OInterval::try_from_deg_and_qual(deg, qual);
            let compound =
                Interval::from_deg_and_qual(IntervalDeg::from_odeg_and_octave(deg, -2), qual);
            if valid {
                assert_eq!(reduced.unwrap().deg(), deg);
                assert_eq!(reduced.unwrap().qual(), qual);
                assert_eq!(compound.unwrap().odeg(), deg);
                assert_eq!(compound.unwrap().octave(), -2);
                assert_eq!(compound.unwrap().qual(), qual);
            } else {
                assert_eq!(reduced, Err(NotationError::InvalidDegreeQualityPairing));
                assert_eq!(compound, Err(NotationError::InvalidDegreeQualityPairing));
            }
        }
    }
    assert_eq!(
        OInterval::from_str("M1"),
        Err(NotationError::InvalidDegreeQualityPairing)
    );
    assert_eq!(
        OInterval::from_str("P2"),
        Err(NotationError::InvalidDegreeQualityPairing)
    );
    assert_eq!(
        Interval::from_str("M8"),
        Err(NotationError::InvalidDegreeQualityPairing)
    );
    assert_eq!(
        Interval::from_str("-P9"),
        Err(NotationError::InvalidDegreeQualityPairing)
    );
}

#[test]
fn notation_round_trips() {
    let fis = OPitch::from_str("F+").unwrap();
    assert_eq!(fis.step(), OStep::F);
    assert_eq!(fis.tone(), 6);
    assert_eq!(fis.to_string(), "F+");
    let unison = OInterval::from_str("P1").unwrap();
    assert_eq!(unison, OInterval::zero());
    assert_eq!(unison.to_string(), "P1");
    let low_e = Pitch::from_str("E_-1").unwrap();
    assert_eq!(
        low_e,
        Pitch::from_opitch_and_octave(OPitch::from_str("E").unwrap(), -1)
    );
    assert_eq!(low_e, Pitch::from_step_and_tone(Step(-5), -8));
    assert_eq!(low_e.to_string(), "E_-1");
    for text in ["C", "D-", "E--", "B+++", "G[+5]", "A[-4]", "F+"] {
        assert_eq!(OPitch::from_str(text).unwrap().to_string(), text);
    }
    for text in ["P1", "m2", "A4", "dd5", "[A*4]4", "[d*12]7", "M7"] {
        assert_eq!(OInterval::from_str(text).unwrap().to_string(), text);
    }
    for text in ["P1", "M9", "P8", "-M3", "-m6", "A1", "-A1", "[A*5]11"] {
        assert_eq!(Interval::from_str(text).unwrap().to_string(), text);
    }
    for text in ["C_0", "B+_3", "D-_-2", "G_10"] {
        assert_eq!(Pitch::from_str(text).unwrap().to_string(), text);
    }
    for text in ["C_0", "D_1", "B_-3"] {
        assert_eq!(Step::from_str(text).unwrap().to_string(), text);
    }
}

#[test]
fn the_carry_couples_step_and_tone() {
    let e = OPitch::from_str("E").unwrap();
    let e_flat = OPitch::from_str("E-").unwrap();
    let sum = e + e_flat;
    assert_eq!(sum.step(), OStep::G);
    assert_eq!(sum.tone(), 7);
    assert_eq!(sum, OPitch::from_str("G").unwrap());
    let a = OPitch::from_str("A").unwrap();
    let b = OPitch::from_str("B").unwrap();
    assert_eq!(a + b, OPitch::from_step_and_tone(OStep::G, 8));
    assert_eq!(
        OPitch::from_str("F").unwrap() + OPitch::from_str("G").unwrap(),
        OPitch::c()
    );
    assert_eq!(b + OPitch::d(), OPitch::from_step_and_tone(OStep::C, 1));
    assert_eq!(
        OPitch::d() - OPitch::e(),
        OPitch::from_step_and_tone(OStep::B, 10)
    );
    assert_eq!(OPitch::e() - OPitch::d(), OPitch::d());
    assert_eq!(-OPitch::c(), OPitch::c());
    assert_eq!(
        -OPitch::from_step_and_tone(OStep::C, 1),
        OPitch::from_step_and_tone(OStep::C, -1)
    );
    assert_eq!(-OPitch::d(), OPitch::from_step_and_tone(OStep::B, 10));
    assert_eq!(-OPitch::g(), OPitch::f());
    assert_eq!(
        OPitch::e() * -2,
        OPitch::from_step_and_tone(OStep::F, 4)
    );
    assert_eq!(OPitch::b() * 0, OPitch::c());
    assert_eq!(OPitch::d() * 7, OPitch::from_step_and_tone(OStep::C, 2));
}

#[test]
fn operators_wrap_and_checked_variants_refuse() {
    let high = OPitch::from_step_and_tone(OStep::C, 100);
    assert_eq!(high + high, OPitch::from_step_and_tone(OStep::C, -56));
    assert_eq!(high.checked_add(high), None);
    assert_eq!(
        high.checked_add(OPitch::from_step_and_tone(OStep::C, 27)),
        Some(OPitch::from_step_and_tone(OStep::C, 127))
    );
    let low = OPitch::from_step_and_tone(OStep::B, -120);
    assert_eq!(low.checked_add(low), None);
    assert_eq!(low + low, OPitch::from_step_and_tone(OStep::A, 4));
    assert_eq!(
        OPitch::e().checked_add(OPitch::g()),
        Some(OPitch::from_step_and_tone(OStep::B, 11))
    );
    assert_eq!(
        OPitch::a().checked_add(OPitch::b()),
        Some(OPitch::from_step_and_tone(OStep::G, 8))
    );
    assert_eq!(high.checked_mul(2), None);
    assert_eq!(high * 2, OPitch::from_step_and_tone(OStep::C, -56));
    assert_eq!(
        OPitch::e().checked_mul(2),
        Some(OPitch::from_step_and_tone(OStep::G, 8))
    );
    let p = Pitch::from_step_and_tone(Step(100), 100);
    assert_eq!(p + p, Pitch::from_step_and_tone(Step(-56), -56));
    assert_eq!(p.checked_mul(2), None);
    assert_eq!(
        Pitch::from_step_and_tone(Step(10), 17).checked_mul(-3),
        Some(Pitch::from_step_and_tone(Step(-30), -51))
    );
    assert_eq!(
        Pitch::from_step_and_tone(Step(10), 17) * -3,
        Pitch::from_step_and_tone(Step(-30), -51)
    );
    assert_eq!(
        Pitch::from_step_and_tone(Step(3), 5) - Pitch::from_step_and_tone(Step(5), 9),
        Pitch::from_step_and_tone(Step(-2), -4)
    );
    assert_eq!(Step(100).checked_mul(2), None);
    assert_eq!(Step(-8).checked_mul(16), Some(Step(-128)));
    assert_eq!(Step(100) * 2, Step(-56));
    assert_eq!(Step(100) + Step(100), Step(-56));
    assert_eq!(Step(5) - Step(7), Step(-2));
    assert_eq!(-Step(i8::MIN), Step(i8::MIN));
    assert_eq!(Acci(3).checked_mul(50), None);
    assert_eq!(Acci(3).checked_mul(-2), Some(Acci(-6)));
    assert_eq!(Acci(1) + Acci(2), Acci(3));
    assert_eq!(Acci(1) - Acci(2), Acci::flat());
    assert_eq!(-Acci(2), Acci::double_flat());
    assert_eq!(Acci(2) * 3, Acci(6));
    assert_eq!(IntervalDeg(3) + IntervalDeg(4), IntervalDeg(7));
    assert_eq!(IntervalDeg(3) - IntervalDeg(4), IntervalDeg(-1));
    assert_eq!(-IntervalDeg(3), IntervalDeg(-3));
}

#[test]
fn steps_form_a_cycle_of_seven() {
    assert_eq!(OStep::A + OStep::E, OStep::C);
    assert_eq!(OStep::B + OStep::B, OStep::A);
    assert_eq!(OStep::C - OStep::C, OStep::C);
    assert_eq!(OStep::D - OStep::F, OStep::A);
    assert_eq!(OStep::F - OStep::D, OStep::E);
    assert_eq!(-OStep::C, OStep::C);
    assert_eq!(-OStep::D, OStep::B);
    assert_eq!(-OStep::G, OStep::F);
    assert_eq!(OStep::E * 3i8, OStep::B);
    assert_eq!(OStep::E * -1i8, OStep::A);
    assert_eq!(OStep::E * 100i8, OStep::G);
    assert_eq!(OStep::G * 0i8, OStep::C);
    assert_eq!(OStep::E * 3u8, OStep::B);
    assert_eq!(OStep::D * 255u8, OStep::F);
    for a in STEPS {
        assert_eq!(a + (-a), OStep::C);
        for b in STEPS {
            assert_eq!((a - b) + b, a);
        }
    }
    assert_eq!(OIntervalDeg::Fifth + OIntervalDeg::Fourth, OIntervalDeg::Unison);
    assert_eq!(-OIntervalDeg::Third, OIntervalDeg::Sixth);
    assert_eq!(OStep::from_mod(-1i8), OStep::B);
    assert_eq!(OStep::from_mod(15i8), OStep::D);
    assert_eq!(OIntervalDeg::from_mod(-8i8), OIntervalDeg::Seventh);
    assert_eq!(OStep::from(Step(-1)), OStep::B);
    assert_eq!(Step::from(OStep::G), Step(4));
    assert_eq!(OStep::from_index(6), Some(OStep::B));
    assert_eq!(OStep::from_index(7), None);
    assert_eq!(OIntervalDeg::from_index(7), None);
    assert_eq!(u8::from(OStep::A), 5);
    assert_eq!(OIntervalDeg::from(OStep::F), OIntervalDeg::Fourth);
    assert_eq!(OStep::from(OIntervalDeg::Seventh), OStep::B);
    assert_eq!(OIntervalDeg::from(IntervalDeg(-1)), OIntervalDeg::Seventh);
    assert_eq!(IntervalDeg::from(OIntervalDeg::Third), IntervalDeg(2));
}

#[test]
fn sign_and_absolute_value() {
    let sign = |step, tone| Pitch::from_step_and_tone(Step(step), tone).sign();
    assert_eq!(sign(1, -5), Ordering::Greater);
    assert_eq!(sign(-1, 5), Ordering::Less);
    assert_eq!(sign(0, 5), Ordering::Greater);
    assert_eq!(sign(0, -5), Ordering::Less);
    assert_eq!(sign(0, 0), Ordering::Equal);
    let abs = |step, tone| Pitch::from_step_and_tone(Step(step), tone).abs();
    assert_eq!(abs(2, -3), Pitch::from_step_and_tone(Step(2), -3));
    assert_eq!(abs(-2, -3), Pitch::from_step_and_tone(Step(2), 3));
    assert_eq!(abs(0, -3), Pitch::from_step_and_tone(Step(0), 3));
    assert_eq!(abs(0, 3), Pitch::from_step_and_tone(Step(0), 3));
    assert_eq!(Step(-3).abs(), Step(3));
    assert_eq!(Step(3).abs(), Step(3));
    assert_eq!(IntervalDeg(-9).abs(), IntervalDeg(9));
    let third = Interval::from_str("M3").unwrap();
    assert_eq!(third.sign(), Ordering::Greater);
    assert_eq!((-third).sign(), Ordering::Less);
    assert_eq!(Interval::zero().sign(), Ordering::Equal);
    assert_eq!(
        Interval::from_str("A1").unwrap().sign(),
        Ordering::Greater
    );
    assert_eq!(Interval::from_str("d1").unwrap().sign(), Ordering::Less);
    assert_eq!((-third).abs(), third);
    assert_eq!(third.abs(), third);
    assert_eq!(
        Interval::from_str("d1").unwrap().abs(),
        Interval::from_str("A1").unwrap()
    );
    assert_eq!((-third).abs_qual(), IntervalQual::Major);
    assert_eq!((-third).qual(), IntervalQual::Minor);
    assert_eq!(third.abs_qual(), IntervalQual::Major);
    assert_eq!(
        Pitch::from_step_and_tone(Step(-5), -8).abs_qual(),
        IntervalQual::Minor
    );
    assert_eq!(
        Pitch::from_step_and_tone(Step(2), 3).abs_qual(),
        IntervalQual::Minor
    );
    assert_eq!(Pitch::zero().abs_qual(), IntervalQual::Perfect);
}

#[test]
fn qualities_are_partially_ordered() {
    assert_eq!(Minor.partial_cmp(&Perfect), None);
    assert_eq!(Perfect.partial_cmp(&Minor), None);
    assert_eq!(Major.partial_cmp(&Perfect), None);
    assert_eq!(Perfect.partial_cmp(&Major), None);
    assert_eq!(Diminished(1).partial_cmp(&Minor), Some(Ordering::Less));
    assert_eq!(Diminished(2).partial_cmp(&Diminished(1)), Some(Ordering::Less));
    assert_eq!(Diminished(1).partial_cmp(&Diminished(2)), Some(Ordering::Greater));
    assert_eq!(Augmented(1).partial_cmp(&Augmented(2)), Some(Ordering::Less));
    assert_eq!(Augmented(1).partial_cmp(&Diminished(9)), Some(Ordering::Greater));
    assert_eq!(Minor.partial_cmp(&Major), Some(Ordering::Less));
    assert_eq!(Major.partial_cmp(&Minor), Some(Ordering::Greater));
    assert_eq!(Perfect.partial_cmp(&Perfect), Some(Ordering::Equal));
    assert_eq!(Perfect.partial_cmp(&Augmented(1)), Some(Ordering::Less));
    assert_eq!(Major.partial_cmp(&Diminished(1)), Some(Ordering::Greater));
    assert!(Diminished(3) < Minor);
    assert!(!(Minor < Perfect));
    assert!(!(Minor >= Perfect));
    assert_eq!(Major.partial_cmp_abs(&Minor), Some(Ordering::Equal));
    assert_eq!(Perfect.partial_cmp_abs(&Perfect), Some(Ordering::Equal));
    assert_eq!(Perfect.partial_cmp_abs(&Minor), None);
    assert_eq!(Major.partial_cmp_abs(&Perfect), None);
    assert_eq!(
        Augmented(2).partial_cmp_abs(&Diminished(2)),
        Some(Ordering::Equal)
    );
    assert_eq!(
        Diminished(3).partial_cmp_abs(&Augmented(2)),
        Some(Ordering::Greater)
    );
    assert_eq!(Diminished(1).partial_cmp_abs(&Major), Some(Ordering::Greater));
    assert_eq!(Perfect.partial_cmp_abs(&Augmented(1)), Some(Ordering::Less));
    assert_eq!(-Augmented(2), Diminished(2));
    assert_eq!(-Diminished(5), Augmented(5));
    assert_eq!(-Major, Minor);
    assert_eq!(-Minor, Major);
    assert_eq!(-Perfect, Perfect);
}

#[test]
fn intervals_are_ordered_by_degree_then_quality() {
    let i = |text| Interval::from_str(text).unwrap();
    let o = |text| OInterval::from_str(text).unwrap();
    assert_eq!(o("M2").cmp(&o("m3")), Ordering::Less);
    assert_eq!(o("m3").cmp(&o("M3")), Ordering::Less);
    assert_eq!(o("A4").cmp(&o("P4")), Ordering::Greater);
    assert_eq!(o("d5").cmp(&o("d5")), Ordering::Equal);
    assert!(o("dd5") < o("d5"));
    assert!(o("M7") > o("A1"));
    assert_eq!(i("M9").cmp(&i("A8")), Ordering::Greater);
    assert_eq!(i("-M3").cmp(&i("d1")), Ordering::Less);
    assert_eq!(i("P5").cmp(&i("A5")), Ordering::Less);
    assert!(i("-M2") < i("M2"));
    assert_eq!(i("-M3").cmp_abs(&i("M3")), Ordering::Less);
    assert_eq!(i("M3").cmp_abs(&i("M3")), Ordering::Equal);
    assert_eq!(i("-M3").cmp_abs(&i("M2")), Ordering::Greater);
    assert_eq!(i("m3").cmp_abs(&i("M3")), Ordering::Less);
    assert_eq!(i("-M3").partial_cmp_abs(&i("P4")), Some(Ordering::Less));
    assert!(i("-M3").eq_abs(&i("M3")));
    assert!(!i("m3").eq_abs(&i("M3")));
    assert_eq!(Step(-3).cmp_abs(&Step(2)), Ordering::Greater);
    assert_eq!(Step(-3).cmp_abs(&Step(3)), Ordering::Equal);
    assert_eq!(Step(1).partial_cmp_abs(&Step(-2)), Some(Ordering::Less));
    assert_eq!(Step(i8::MIN).cmp_abs(&Step(i8::MAX)), Ordering::Greater);
    assert!(Step(-3).eq_abs(&Step(3)));
    assert!(!Step(-3).eq_abs(&Step(2)));
    assert_eq!(IntervalDeg(-3).cmp_abs(&IntervalDeg(2)), Ordering::Greater);
    assert!(IntervalDeg(-3).eq_abs(&IntervalDeg(3)));
    let p = |step, tone| Pitch::from_step_and_tone(Step(step), tone);
    assert_eq!(p(-2, 3).cmp_abs(&p(2, 4)), Ordering::Less);
    assert_eq!(p(-3, 0).cmp_abs(&p(2, 9)), Ordering::Greater);
    assert_eq!(p(2, 4).cmp_abs(&p(-2, 4)), Ordering::Equal);
    assert!(p(2, -4).eq_abs(&p(-2, 4)));
    assert!(!p(2, 3).eq_abs(&p(-2, 4)));
}

#[test]
fn pitches_tell_what_they_hold() {
    let b_sharp = OPitch::from_str("B+").unwrap();
    assert_eq!(b_sharp, OPitch::from_step_and_tone(OStep::B, 12));
    assert_eq!(b_sharp.octave_by_tone(), 1);
    assert_eq!(b_sharp.octave(), 0);
    assert_eq!(b_sharp.otone(), 12);
    assert_eq!(b_sharp.ostep(), OStep::B);
    assert_eq!(b_sharp.acci(), Acci::sharp());
    assert!(!b_sharp.is_diatonic());
    assert!(b_sharp.is_enharmonic(&OPitch::c()));
    assert!(!b_sharp.is_enharmonic(&OPitch::b()));
    let c_flat = OPitch::new(OStep::C, Acci::flat());
    assert_eq!(c_flat.tone(), -1);
    assert_eq!(c_flat.octave_by_tone(), -1);
    assert!(c_flat.is_enharmonic(&OPitch::b()));
    assert!(OPitch::new_diatonic(OStep::E).is_diatonic());
    assert_eq!(OPitch::from(OStep::E), OPitch::e());
    let p = Pitch::from_step_and_acci(Step(-5), Acci::flat());
    assert_eq!(p, Pitch::from_step_and_tone(Step(-5), -9));
    assert_eq!(p.ostep(), OStep::E);
    assert_eq!(p.octave(), -1);
    assert_eq!(p.octave_by_tone(), -1);
    assert_eq!(p.otone(), 3);
    assert_eq!(p.acci(), Acci::flat());
    assert!(!p.is_diatonic());
    assert!(p.is_enharmonic(&Pitch::from_step_and_tone(Step(-6), -9)));
    assert_eq!(Pitch::from(OPitch::g()), Pitch::from_step_and_tone(Step(4), 7));
    assert_eq!(PitchNotation::acci(&p), Acci::flat());
    assert_eq!(PitchNotation::otone(&p), 3);
    assert!(PitchNotation::is_enharmonic(&b_sharp, &OPitch::c()));
}

#[test]
fn pitches_and_intervals_convert() {
    let o = |text| OInterval::from_str(text).unwrap();
    assert_eq!(OPitch::from(o("M3")), OPitch::e());
    assert_eq!(OPitch::from(o("m3")), OPitch::from_step_and_tone(OStep::E, 3));
    assert_eq!(OPitch::from(o("A4")), OPitch::from_step_and_tone(OStep::F, 6));
    assert_eq!(OPitch::from(o("d7")), OPitch::from_step_and_tone(OStep::B, 9));
    assert_eq!(OInterval::from(OPitch::from_step_and_tone(OStep::B, 9)), o("d7"));
    let i = |text| Interval::from_str(text).unwrap();
    assert_eq!(Pitch::from(i("M10")), Pitch::from_step_and_tone(Step(9), 16));
    assert_eq!(Pitch::from(i("-M3")), Pitch::from_step_and_tone(Step(-2), -4));
    assert_eq!(Interval::from(Pitch::from_step_and_tone(Step(9), 16)), i("M10"));
    assert_eq!(OInterval::from(i("M10")), o("M3"));
    assert_eq!(OInterval::from(i("-M3")), o("m6"));
    assert_eq!(Interval::from(o("m6")), i("m6"));
    assert_eq!(OPitch::from(i("M10")), OPitch::e());
    assert_eq!(Pitch::from(o("P5")), Pitch::from_step_and_tone(Step(4), 7));
    assert_eq!(Interval::from(OPitch::e()), i("M3"));
    assert_eq!(
        OInterval::from(Pitch::from_step_and_tone(Step(9), 16)),
        o("M3")
    );
    assert_eq!(
        Interval::from_ointerval_and_octave(o("m2"), -1),
        i("m2_-1")
    );
    assert_eq!(i("m2_-1").deg(), IntervalDeg(-6));
    assert_eq!(i("M3_1"), i("M10"));
}

#[test]
fn sums_add_from_the_left() {
    let e = OPitch::e();
    assert_eq!(OPitch::sum(&[]), OPitch::c());
    assert_eq!(OPitch::sum(&[e, e, e]), OPitch::from_step_and_tone(OStep::B, 12));
    let o = |text| OInterval::from_str(text).unwrap();
    assert_eq!(OInterval::sum(&[]), o("P1"));
    assert_eq!(OInterval::sum(&[o("M3"), o("m3"), o("P4")]), o("P1"));
    assert_eq!(OInterval::sum(&[o("M3"), o("M3")]), o("A5"));
}

#[test]
fn operators_in_place() {
    let mut p = OPitch::e();
    p.add_assign(OPitch::from_step_and_tone(OStep::E, 3));
    assert_eq!(p, OPitch::g());
    p.sub_assign(OPitch::e());
    assert_eq!(p, OPitch::from_step_and_tone(OStep::E, 3));
    p.mul_assign(2);
    assert_eq!(p, OPitch::from_step_and_tone(OStep::G, 6));
    p.neg_assign();
    assert_eq!(p, OPitch::from_step_and_tone(OStep::F, 6));
    let mut q = Pitch::from_step_and_tone(Step(-2), -4);
    q.abs_assign();
    assert_eq!(q, Pitch::from_step_and_tone(Step(2), 4));
    q.neg_assign();
    assert_eq!(q, Pitch::from_step_and_tone(Step(-2), -4));
    q.mul_assign(-2);
    assert_eq!(q, Pitch::from_step_and_tone(Step(4), 8));
    q.add_assign(Pitch::from_step_and_tone(Step(1), 1));
    q.sub_assign(Pitch::from_step_and_tone(Step(0), 2));
    assert_eq!(q, Pitch::from_step_and_tone(Step(5), 7));
    let mut i = OInterval::from_str("M3").unwrap();
    i.add_assign(OInterval::from_str("m3").unwrap());
    assert_eq!(i, OInterval::from_str("P5").unwrap());
    i.sub_assign(OInterval::from_str("M2").unwrap());
    assert_eq!(i, OInterval::from_str("P4").unwrap());
    i.neg_assign();
    assert_eq!(i, OInterval::from_str("P5").unwrap());
    let mut s = Step(3);
    s.add_assign(Step(4));
    s.mul_assign(2);
    s.sub_assign(Step(1));
    s.neg_assign();
    assert_eq!(s, Step(-13));
    let mut quality = IntervalQual::Augmented(2);
    quality.neg_assign();
    assert_eq!(quality, IntervalQual::Diminished(2));
}

#[test]
fn addition_of_reduced_pitches_is_a_group() {
    let tones = [i8::MIN, -100, -12, -1, 0, 1, 5, 11, 12, 99, i8::MAX];
    let mut pitches = Vec::new();
    for step in STEPS {
        for tone in tones {
            pitches.push(OPitch::from_step_and_tone(step, tone));
        }
    }
    for p in &pitches {
        assert_eq!(*p + OPitch::zero(), *p);
        assert_eq!(*p * 0, OPitch::zero());
        assert_eq!(*p * 1, *p);
        assert_eq!(*p * -1, -*p);
        assert_eq!(*p * 3, *p + *p + *p);
        for q in &pitches {
            assert_eq!(*p + *q, *q + *p);
            assert_eq!(*p - *q, *p + (-*q));
        }
    }
    for p in pitches.iter().step_by(5) {
        for q in pitches.iter().step_by(3) {
            for r in pitches.iter().step_by(7) {
                assert_eq!((*p + *q) + *r, *p + (*q + *r));
            }
        }
    }
}

#[test]
fn negating_an_interval_negates_degree_and_quality() {
    let quals = [
        Perfect,
        Major,
        Minor,
        Augmented(1),
        Augmented(3),
        Diminished(1),
        Diminished(2),
    ];
    for deg in -60..=60i8 {
        for qual in quals {
            if let Ok(interval) = Interval::from_deg_and_qual(IntervalDeg(deg), qual) {
                let negated = -interval;
                assert_eq!(negated.deg(), IntervalDeg(-deg));
                assert_eq!(negated.qual(), -qual);
                assert_eq!(-negated, interval);
                let pitch = Pitch::from(interval);
                assert_eq!(Pitch::from(negated), -pitch);
                assert_eq!(Interval::from(pitch), interval);
            }
        }
    }
    for deg in DEGREES {
        for qual in quals {
            if let Ok(interval) = OInterval::try_from_deg_and_qual(deg, qual) {
                let pitch = OPitch::from(interval);
                assert_eq!(OInterval::from(pitch), interval);
                assert_eq!(OInterval::from(-pitch), -interval);
            }
        }
    }
}
