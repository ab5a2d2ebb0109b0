use fantazia::pitch::edo12::parsing::split_qual_and_deg;
use fantazia::pitch::edo12::text::{parse_i8, parse_u8};
use fantazia::pitch::edo12::traits::Qual;
use fantazia::pitch::edo12::{
    Acci, Interval, IntervalDeg, IntervalQual, NotationError, OInterval, OIntervalDeg, OPitch,
    OStep, Pitch, Step,
};

#[test]
fn step_names_and_their_aliases() {
    for (name, step) in [
        ("C", OStep::C),
        ("do", OStep::C),
        ("ut", OStep::C),
        ("D", OStep::D),
        ("re", OStep::D),
        ("E", OStep::E),
        ("mi", OStep::E),
        ("F", OStep::F),
        ("fa", OStep::F),
        ("G", OStep::G),
        ("sol", OStep::G),
        ("A", OStep::A),
        ("la", OStep::A),
        ("B", OStep::B),
        ("si", OStep::B),
        ("ti", OStep::B),
        ("c", OStep::C),
        ("SOL", OStep::G),
        ("Re", OStep::D),
        ("tI", OStep::B),
    ] {
        assert_eq!(OStep::from_str(name), Ok(step));
    }
    for name in ["", "H", "so", "sola", "c ", "do-", "1"] {
        assert_eq!(OStep::from_str(name), Err(NotationError::UnknownStepName));
    }
    assert_eq!(Step::from_str("sol"), Ok(Step(4)));
    assert_eq!(Step::from_str("D_1"), Ok(Step(8)));
    assert_eq!(Step::from_str("B_-1"), Ok(Step(-1)));
    assert_eq!(Step::from_str("C_18"), Ok(Step(126)));
    assert_eq!(Step::from_str("E_18"), Err(NotationError::IntegerOverflow));
    assert_eq!(Step::from_str("X_1"), Err(NotationError::UnknownStepName));
    assert_eq!(Step::from_str("C_"), Err(NotationError::InvalidCharacter));
    assert_eq!(Step::from_str("C_1_2"), Err(NotationError::InvalidCharacter));
}

#[test]
fn numbers() {
    assert_eq!(parse_i8("0"), Ok(0));
    assert_eq!(parse_i8("-0"), Ok(0));
    assert_eq!(parse_i8("+7"), Ok(7));
    assert_eq!(parse_i8("007"), Ok(7));
    assert_eq!(parse_i8("127"), Ok(127));
    assert_eq!(parse_i8("-128"), Ok(-128));
    assert_eq!(parse_i8("128"), Err(NotationError::IntegerOverflow));
    assert_eq!(parse_i8("-129"), Err(NotationError::IntegerOverflow));
    assert_eq!(
        parse_i8("99999999999999999999999999"),
        Err(NotationError::IntegerOverflow)
    );
    assert_eq!(parse_i8(""), Err(NotationError::InvalidCharacter));
    assert_eq!(parse_i8("-"), Err(NotationError::InvalidCharacter));
    assert_eq!(parse_i8("+"), Err(NotationError::InvalidCharacter));
    assert_eq!(parse_i8("1x"), Err(NotationError::InvalidCharacter));
    assert_eq!(parse_i8("--1"), Err(NotationError::InvalidCharacter));
    assert_eq!(parse_i8(" 1"), Err(NotationError::InvalidCharacter));
    assert_eq!(parse_i8("9999x"), Err(NotationError::InvalidCharacter));
    assert_eq!(parse_u8("255"), Ok(255));
    assert_eq!(parse_u8("+12"), Ok(12));
    assert_eq!(parse_u8("256"), Err(NotationError::IntegerOverflow));
    assert_eq!(parse_u8("-1"), Err(NotationError::InvalidCharacter));
    assert_eq!(parse_u8("-0"), Err(NotationError::InvalidCharacter));
    assert_eq!(parse_u8(""), Err(NotationError::InvalidCharacter));
    for n in i8::MIN..=i8::MAX {
        assert_eq!(parse_i8(&format!("{}", n)), Ok(n));
    }
    for n in u8::MIN..=u8::MAX {
        assert_eq!(parse_u8(&format!("{}", n)), Ok(n));
    }
}

#[test]
fn accidentals() {
    assert_eq!(Acci::from_str(""), Ok(Acci::natural()));
    assert_eq!(Acci::from_str("[]"), Ok(Acci::natural()));
    assert_eq!(Acci::from_str("+"), Ok(Acci::sharp()));
    assert_eq!(Acci::from_str("++"), Ok(Acci::double_sharp()));
    assert_eq!(Acci::from_str("+++"), Ok(Acci::triple_sharp()));
    assert_eq!(Acci::from_str("-"), Ok(Acci::flat()));
    assert_eq!(Acci::from_str("--"), Ok(Acci::double_flat()));
    assert_eq!(Acci::from_str("---"), Ok(Acci::triple_flat()));
    assert_eq!(Acci::from_str("+-"), Ok(Acci::natural()));
    assert_eq!(Acci::from_str("-++"), Ok(Acci::sharp()));
    assert_eq!(Acci::from_str("[+5]"), Ok(Acci(5)));
    assert_eq!(Acci::from_str("[5]"), Ok(Acci(5)));
    assert_eq!(Acci::from_str("[-4]"), Ok(Acci(-4)));
    assert_eq!(Acci::from_str("[-128]"), Ok(Acci(-128)));
    assert_eq!(Acci::from_str("["), Err(NotationError::UnclosedBracket));
    assert_eq!(Acci::from_str("[+5"), Err(NotationError::UnclosedBracket));
    assert_eq!(Acci::from_str("[+5]+"), Err(NotationError::UnclosedBracket));
    assert_eq!(Acci::from_str("[x]"), Err(NotationError::InvalidCharacter));
    assert_eq!(Acci::from_str("[+]"), Err(NotationError::InvalidCharacter));
    assert_eq!(Acci::from_str("+x"), Err(NotationError::InvalidCharacter));
    assert_eq!(Acci::from_str("#"), Err(NotationError::InvalidCharacter));
    assert_eq!(Acci::from_str("]"), Err(NotationError::InvalidCharacter));
    assert_eq!(Acci::from_str("[+200]"), Err(NotationError::IntegerOverflow));
    assert_eq!(Acci::from_str(&"+".repeat(127)), Ok(Acci(127)));
    assert_eq!(
        Acci::from_str(&"+".repeat(128)),
        Err(NotationError::IntegerOverflow)
    );
    assert_eq!(Acci::from_str(&"-".repeat(128)), Ok(Acci(-128)));
    assert_eq!(
        Acci::from_str(&"-".repeat(129)),
        Err(NotationError::IntegerOverflow)
    );
    for n in i8::MIN..=i8::MAX {
        assert_eq!(Acci::from_str(&Acci(n).to_string()), Ok(Acci(n)));
    }
    assert_eq!(Acci(5).to_string(), "[+5]");
    assert_eq!(Acci(-4).to_string(), "[-4]");
    assert_eq!(Acci(4).to_string(), "[+4]");
    assert_eq!(Acci(127).to_string(), "[+127]");
    assert_eq!(Acci(-128).to_string(), "[-128]");
    assert_eq!(Acci(0).to_string(), "[]");
}

#[test]
fn pitches() {
    assert_eq!(OPitch::from_str("C"), Ok(OPitch::c()));
    assert_eq!(
        OPitch::from_str("sol-"),
        Ok(OPitch::from_step_and_tone(OStep::G, 6))
    );
    assert_eq!(
        OPitch::from_str("Re[+5]"),
        Ok(OPitch::from_step_and_tone(OStep::D, 7))
    );
    assert_eq!(OPitch::from_str("C[]"), Ok(OPitch::c()));
    assert_eq!(
        OPitch::from_str("B[+116]"),
        Ok(OPitch::from_step_and_tone(OStep::B, 127))
    );
    assert_eq!(
        OPitch::from_str("B[+117]"),
        Err(NotationError::IntegerOverflow)
    );
    assert_eq!(
        OPitch::from_str("C[-128]"),
        Ok(OPitch::from_step_and_tone(OStep::C, -128))
    );
    assert_eq!(OPitch::from_str(""), Err(NotationError::UnknownStepName));
    assert_eq!(OPitch::from_str("+"), Err(NotationError::UnknownStepName));
    assert_eq!(OPitch::from_str("H+"), Err(NotationError::UnknownStepName));
    assert_eq!(OPitch::from_str("C+x"), Err(NotationError::InvalidCharacter));
    assert_eq!(OPitch::from_str("C+D"), Err(NotationError::InvalidCharacter));
    assert_eq!(OPitch::from_str("C[+5"), Err(NotationError::UnclosedBracket));
    assert_eq!(OPitch::from_str("C_1"), Err(NotationError::InvalidCharacter));
    assert_eq!(
        Pitch::from_str("C"),
        Ok(Pitch::from_step_and_tone(Step(0), 0))
    );
    assert_eq!(
        Pitch::from_str("F+_2"),
        Ok(Pitch::from_step_and_tone(Step(17), 30))
    );
    assert_eq!(
        Pitch::from_str("E-_0"),
        Ok(Pitch::from_step_and_tone(Step(2), 3))
    );
    assert_eq!(
        Pitch::from_str("C_-10"),
        Ok(Pitch::from_step_and_tone(Step(-70), -120))
    );
    assert_eq!(Pitch::from_str("C_-11"), Err(NotationError::IntegerOverflow));
    assert_eq!(Pitch::from_str("C_100"), Err(NotationError::IntegerOverflow));
    assert_eq!(Pitch::from_str("C_200"), Err(NotationError::IntegerOverflow));
    assert_eq!(Pitch::from_str("C_"), Err(NotationError::InvalidCharacter));
    assert_eq!(Pitch::from_str("C_x"), Err(NotationError::InvalidCharacter));
    assert_eq!(Pitch::from_str("_1"), Err(NotationError::UnknownStepName));
    assert_eq!(Pitch::from_str("H_1"), Err(NotationError::UnknownStepName));
    assert_eq!(Pitch::from_str("C[_1"), Err(NotationError::UnclosedBracket));
    assert_eq!(OPitch::from_step_and_tone(OStep::G, 12).to_string(), "G[+5]");
    assert_eq!(OPitch::from_step_and_tone(OStep::A, 5).to_string(), "A[-4]");
    assert_eq!(OPitch::from_step_and_tone(OStep::C, -1).to_string(), "C-");
    assert_eq!(Pitch::from_step_and_tone(Step(-5), -9).to_string(), "E-_-1");
    assert_eq!(Pitch::from_step_and_tone(Step(17), 30).to_string(), "F+_2");
    assert_eq!(Step(-1).to_string(), "B_-1");
    assert_eq!(Step(126).to_string(), "C_18");
    assert_eq!(Step(127).to_string(), "D_18");
    assert_eq!(Step(-128).to_string(), "A_-19");
}

#[test]
fn degrees() {
    let texts: Vec<Result<OIntervalDeg, NotationError>> = ["1", "2", "3", "4", "5", "6", "7"]
        .iter()
        .map(|text| OIntervalDeg::from_str(text))
        .collect();
    assert_eq!(
        texts,
        vec![
            Ok(OIntervalDeg::Unison),
            Ok(OIntervalDeg::Second),
            Ok(OIntervalDeg::Third),
            Ok(OIntervalDeg::Fourth),
            Ok(OIntervalDeg::Fifth),
            Ok(OIntervalDeg::Sixth),
            Ok(OIntervalDeg::Seventh),
        ]
    );
    for text in ["0", "8", "", "x", "-1", "300", "1.5"] {
        assert_eq!(
            OIntervalDeg::from_str(text),
            Err(NotationError::InvalidDegree)
        );
    }
    assert_eq!(OIntervalDeg::Seventh.to_string(), "7");
    assert_eq!(OIntervalDeg::Unison.to_string(), "1");
    assert_eq!(IntervalDeg::from_str("1"), Ok(IntervalDeg(0)));
    assert_eq!(IntervalDeg::from_str("9"), Ok(IntervalDeg(8)));
    assert_eq!(IntervalDeg::from_str("128"), Ok(IntervalDeg(127)));
    assert_eq!(IntervalDeg::from_str("129"), Err(NotationError::InvalidDegree));
    assert_eq!(IntervalDeg::from_str("0"), Err(NotationError::InvalidDegree));
    assert_eq!(IntervalDeg::from_str("x"), Err(NotationError::InvalidDegree));
    assert_eq!(IntervalDeg::from_str("3_1"), Ok(IntervalDeg(9)));
    assert_eq!(IntervalDeg::from_str("3_-1"), Ok(IntervalDeg(-5)));
    assert_eq!(IntervalDeg::from_str("9_1"), Err(NotationError::InvalidDegree));
    assert_eq!(IntervalDeg::from_str("3_x"), Err(NotationError::InvalidCharacter));
    assert_eq!(IntervalDeg::from_str("3_100"), Err(NotationError::InvalidDegree));
    assert_eq!(
        IntervalDeg::from_str("3_1000"),
        Err(NotationError::IntegerOverflow)
    );
}

#[test]
fn qualities() {
    for (text, qual) in [
        ("P", IntervalQual::Perfect),
        ("M", IntervalQual::Major),
        ("m", IntervalQual::Minor),
        ("A", IntervalQual::Augmented(1)),
        ("AA", IntervalQual::Augmented(2)),
        ("AAA", IntervalQual::Augmented(3)),
        ("AAAA", IntervalQual::Augmented(4)),
        ("d", IntervalQual::Diminished(1)),
        ("ddd", IntervalQual::Diminished(3)),
        ("[A*4]", IntervalQual::Augmented(4)),
        ("[d*12]", IntervalQual::Diminished(12)),
        ("[A*1]", IntervalQual::Augmented(1)),
        ("[d*255]", IntervalQual::Diminished(255)),
        ("[A*0]", IntervalQual::Augmented(0)),
    ] {
        assert_eq!(IntervalQual::from_str(text), Ok(qual));
    }
    for text in [
        "", "X", "p", "PP", "Mm", "a", "D", "Ax", "AAd", "dA", "A ", "[]", "[A]", "[A*]", "[A*x]",
        "[B*3]", "[A+3]", "[A*-3]", "[*3]",
    ] {
        assert_eq!(
            IntervalQual::from_str(text),
            Err(NotationError::InvalidQualityToken)
        );
    }
    for text in ["[", "[A*5", "[A", "[A*5]x"] {
        assert_eq!(
            IntervalQual::from_str(text),
            Err(NotationError::UnclosedBracket)
        );
    }
    assert_eq!(
        IntervalQual::from_str("[A*300]"),
        Err(NotationError::IntegerOverflow)
    );
    assert_eq!(
        IntervalQual::from_str(&"A".repeat(255)),
        Ok(IntervalQual::Augmented(255))
    );
    assert_eq!(
        IntervalQual::from_str(&"d".repeat(256)),
        Err(NotationError::IntegerOverflow)
    );
    assert_eq!(IntervalQual::Perfect.to_string(), "P");
    assert_eq!(IntervalQual::Major.to_string(), "M");
    assert_eq!(IntervalQual::Minor.to_string(), "m");
    assert_eq!(IntervalQual::Augmented(3).to_string(), "AAA");
    assert_eq!(IntervalQual::Augmented(4).to_string(), "[A*4]");
    assert_eq!(IntervalQual::Diminished(2).to_string(), "dd");
    assert_eq!(IntervalQual::Diminished(200).to_string(), "[d*200]");
    assert_eq!(IntervalQual::Augmented(0).to_string(), "");
    for n in 1..=u8::MAX {
        assert_eq!(
            IntervalQual::from_str(&IntervalQual::Augmented(n).to_string()),
            Ok(IntervalQual::Augmented(n))
        );
        assert_eq!(
            IntervalQual::from_str(&IntervalQual::Diminished(n).to_string()),
            Ok(IntervalQual::Diminished(n))
        );
    }
}

#[test]
fn splitting_quality_from_degree() {
    assert_eq!(split_qual_and_deg("M3"), Ok(("M", "3")));
    assert_eq!(split_qual_and_deg("[A*4]11"), Ok(("[A*4]", "11")));
    assert_eq!(split_qual_and_deg("A-3"), Ok(("A-", "3")));
    assert_eq!(split_qual_and_deg("12"), Ok(("", "12")));
    assert_eq!(split_qual_and_deg("1M3"), Ok(("1M", "3")));
    assert_eq!(split_qual_and_deg("M"), Err(NotationError::InvalidDegree));
    assert_eq!(split_qual_and_deg(""), Err(NotationError::InvalidDegree));
    assert_eq!(split_qual_and_deg("3M"), Err(NotationError::InvalidDegree));
}

#[test]
fn intervals_within_the_octave() {
    let third = OInterval::from_str("M3").unwrap();
    assert_eq!(third.deg(), OIntervalDeg::Third);
    assert_eq!(third.qual(), IntervalQual::Major);
    assert_eq!(
        OInterval::from_str("[A*4]4"),
        Ok(OInterval::from_deg_and_qual(
            OIntervalDeg::Fourth,
            IntervalQual::Augmented(4)
        ))
    );
    assert_eq!(OInterval::from_str("M0"), Err(NotationError::InvalidDegree));
    assert_eq!(OInterval::from_str("M8"), Err(NotationError::InvalidDegree));
    assert_eq!(OInterval::from_str("M"), Err(NotationError::InvalidDegree));
    assert_eq!(OInterval::from_str(""), Err(NotationError::InvalidDegree));
    assert_eq!(
        OInterval::from_str("3"),
        Err(NotationError::InvalidQualityToken)
    );
    assert_eq!(
        OInterval::from_str("X3"),
        Err(NotationError::InvalidQualityToken)
    );
    assert_eq!(
        OInterval::from_str("Ax3"),
        Err(NotationError::InvalidQualityToken)
    );
    assert_eq!(
        OInterval::from_str("[A*4 3"),
        Err(NotationError::UnclosedBracket)
    );
    assert_eq!(
        OInterval::from_str("M1"),
        Err(NotationError::InvalidDegreeQualityPairing)
    );
}

#[test]
fn signed_and_compound_intervals() {
    let i = |deg, qual| Interval::from_deg_and_qual(IntervalDeg(deg), qual).unwrap();
    assert_eq!(Interval::from_str("M3"), Ok(i(2, IntervalQual::Major)));
    assert_eq!(Interval::from_str("+M3"), Ok(i(2, IntervalQual::Major)));
    assert_eq!(Interval::from_str("-M3"), Ok(i(-2, IntervalQual::Minor)));
    assert_eq!(Interval::from_str("M+3"), Ok(i(2, IntervalQual::Major)));
    assert_eq!(Interval::from_str("M-3"), Ok(i(-2, IntervalQual::Minor)));
    assert_eq!(Interval::from_str("-M-3"), Ok(i(2, IntervalQual::Major)));
    assert_eq!(Interval::from_str("+M-3"), Ok(i(-2, IntervalQual::Minor)));
    assert_eq!(Interval::from_str("-M+3"), Ok(i(-2, IntervalQual::Minor)));
    assert_eq!(
        Interval::from_str("A-3"),
        Ok(i(-2, IntervalQual::Diminished(1)))
    );
    assert_eq!(
        Interval::from_str("-A-3"),
        Ok(i(2, IntervalQual::Augmented(1)))
    );
    assert_eq!(Interval::from_str("A-3").unwrap().to_string(), "-A3");
    assert_eq!(Interval::from_str("M9"), Ok(i(8, IntervalQual::Major)));
    assert_eq!(Interval::from_str("P8"), Ok(i(7, IntervalQual::Perfect)));
    assert_eq!(Interval::from_str("-P8"), Ok(i(-7, IntervalQual::Perfect)));
    assert_eq!(Interval::from_str("P1"), Ok(Interval::zero()));
    assert_eq!(Interval::from_str("-P1"), Ok(Interval::zero()));
    assert_eq!(Interval::from_str("M3_1"), Ok(i(9, IntervalQual::Major)));
    assert_eq!(Interval::from_str("m2_-1"), Ok(i(-6, IntervalQual::Minor)));
    assert_eq!(Interval::from_str("M3_0"), Ok(i(2, IntervalQual::Major)));
    assert_eq!(Interval::from_str("M100"), Ok(i(99, IntervalQual::Major)));
    assert_eq!(Interval::from_str("m128"), Ok(i(127, IntervalQual::Minor)));
    assert_eq!(Interval::from_str("M0"), Err(NotationError::InvalidDegree));
    assert_eq!(Interval::from_str("M129"), Err(NotationError::InvalidDegree));
    assert_eq!(Interval::from_str("M999"), Err(NotationError::InvalidDegree));
    assert_eq!(Interval::from_str("-"), Err(NotationError::InvalidDegree));
    assert_eq!(Interval::from_str(""), Err(NotationError::InvalidDegree));
    assert_eq!(Interval::from_str("M3_"), Err(NotationError::InvalidCharacter));
    assert_eq!(Interval::from_str("M3_x"), Err(NotationError::InvalidCharacter));
    assert_eq!(
        Interval::from_str("M3_100"),
        Err(NotationError::IntegerOverflow)
    );
    assert_eq!(Interval::from_str("M9_1"), Err(NotationError::InvalidDegree));
    assert_eq!(
        Interval::from_str("+M3_1"),
        Err(NotationError::InvalidQualityToken)
    );
    assert_eq!(
        Interval::from_str("--M3"),
        Err(NotationError::InvalidQualityToken)
    );
    assert_eq!(
        Interval::from_str("-P2"),
        Err(NotationError::InvalidDegreeQualityPairing)
    );
    assert_eq!(
        Interval::from_str_positive("A-3"),
        Ok((i(2, IntervalQual::Augmented(1)), false))
    );
    assert_eq!(
        Interval::from_str_positive("A+3"),
        Ok((i(2, IntervalQual::Augmented(1)), true))
    );
    assert_eq!(
        Interval::from_str_positive("m7"),
        Ok((i(6, IntervalQual::Minor), true))
    );
    assert_eq!(
        Interval::from_str_positive("-m7"),
        Err(NotationError::InvalidQualityToken)
    );
    assert_eq!(i(127, IntervalQual::Minor).to_string(), "m128");
    assert_eq!(i(9, IntervalQual::Major).to_string(), "M10");
    assert_eq!(i(-7, IntervalQual::Perfect).to_string(), "-P8");
    assert_eq!(i(0, IntervalQual::Diminished(2)).to_string(), "-AA1");
}

#[test]
fn literals_fall_back_to_the_other_notation() {
    assert_eq!(OPitch::from_literal("E-"), OPitch::from_str("E-"));
    assert_eq!(
        OPitch::from_literal("m3"),
        Ok(OPitch::from_step_and_tone(OStep::E, 3))
    );
    assert_eq!(
        OPitch::from_literal("x"),
        Err(NotationError::UnknownStepName)
    );
    assert_eq!(
        Pitch::from_literal("E-_1"),
        Ok(Pitch::from_step_and_tone(Step(9), 15))
    );
    assert_eq!(
        Pitch::from_literal("-M3"),
        Ok(Pitch::from_step_and_tone(Step(-2), -4))
    );
    assert_eq!(Pitch::from_literal("?"), Err(NotationError::UnknownStepName));
    assert_eq!(OInterval::from_literal("m3"), OInterval::from_str("m3"));
    assert_eq!(OInterval::from_literal("E-"), OInterval::from_str("m3"));
    assert_eq!(
        OInterval::from_literal("M1"),
        Err(NotationError::InvalidDegreeQualityPairing)
    );
    assert_eq!(Interval::from_literal("M10"), Interval::from_str("M10"));
    assert_eq!(Interval::from_literal("E_1"), Interval::from_str("M10"));
    assert_eq!(Interval::from_literal("E_-1"), Interval::from_str("-m6"));
    assert_eq!(Interval::from_literal("H"), Err(NotationError::InvalidDegree));
}

#[test]
fn what_is_written_is_read_back() {
    let steps = [
        OStep::C,
        OStep::D,
        OStep::E,
        OStep::F,
        OStep::G,
        OStep::A,
        OStep::B,
    ];
    for step in steps {
        assert_eq!(OStep::from_str(&step.to_string()), Ok(step));
        for tone in -100..=100i8 {
            let pitch = OPitch::from_step_and_tone(step, tone);
            assert_eq!(OPitch::from_str(&pitch.to_string()), Ok(pitch));
        }
    }
    for step in i8::MIN..=i8::MAX {
        assert_eq!(Step::from_str(&Step(step).to_string()), Ok(Step(step)));
    }
    for step in -60..=60i8 {
        for acci in -5..=5i8 {
            let pitch = Pitch::from_step_and_acci(Step(step), Acci(acci));
            assert_eq!(Pitch::from_str(&pitch.to_string()), Ok(pitch));
        }
    }
    let quals = [
        IntervalQual::Perfect,
        IntervalQual::Major,
        IntervalQual::Minor,
        IntervalQual::Augmented(1),
        IntervalQual::Augmented(3),
        IntervalQual::Augmented(4),
        IntervalQual::Augmented(17),
        IntervalQual::Diminished(1),
        IntervalQual::Diminished(2),
        IntervalQual::Diminished(9),
    ];
    for index in 0..7u8 {
        let deg = OIntervalDeg::from_index(index).unwrap();
        assert_eq!(OIntervalDeg::from_str(&deg.to_string()), Ok(deg));
        for qual in quals {
            if let Ok(interval) = OInterval::try_from_deg_and_qual(deg, qual) {
                assert_eq!(OInterval::from_str(&interval.to_string()), Ok(interval));
            }
        }
    }
    for deg in -60..=60i8 {
        for qual in quals {
            if let Ok(interval) = Interval::from_deg_and_qual(IntervalDeg(deg), qual) {
                assert_eq!(Interval::from_str(&interval.to_string()), Ok(interval));
            }
        }
    }
}
