//! Enumerations with the conversion impls that the generator writes for
//! them, with each variant table given by hand.

use facet_enum_repr::{convert_checked, discriminant_value, discriminants_fit, find_variant, TryFromReprError};

#[derive(Debug, PartialEq, Clone, Copy)]
enum SimpleTestEnum {
    ValA,
    ValB,
}

fn simple_discriminants() -> Vec<i64> {
    vec![0, 1]
}

impl SimpleTestEnum {
    fn index(self) -> usize {
        match self {
            SimpleTestEnum::ValA => 0,
            SimpleTestEnum::ValB => 1,
        }
    }
}

impl TryFrom<u32> for SimpleTestEnum {
    type Error = TryFromReprError<u32>;

    fn try_from(value: u32) -> Result<Self, Self::Error> {
        let discriminants = simple_discriminants();
        assert!(discriminants_fit::<u32>(&discriminants));
        match find_variant(&discriminants, value) {
            Ok(0) => Ok(SimpleTestEnum::ValA),
            Ok(1) => Ok(SimpleTestEnum::ValB),
            Ok(_) => unreachable!(),
            Err(error) => Err(error),
        }
    }
}

impl From<SimpleTestEnum> for u32 {
    fn from(value: SimpleTestEnum) -> Self {
        discriminant_value(&simple_discriminants(), value.index())
    }
}

#[derive(Debug, PartialEq, Clone, Copy)]
enum AttrsTestEnum {
    ValA,
    ValB,
}

impl AttrsTestEnum {
    fn index(self) -> usize {
        match self {
            AttrsTestEnum::ValA => 0,
            AttrsTestEnum::ValB => 1,
        }
    }
}

impl TryFrom<u32> for AttrsTestEnum {
    type Error = TryFromReprError<u32>;

    fn try_from(value: u32) -> Result<Self, Self::Error> {
        let discriminants = simple_discriminants();
        assert!(discriminants_fit::<u32>(&discriminants));
        match find_variant(&discriminants, value) {
            Ok(0) => Ok(AttrsTestEnum::ValA),
            Ok(1) => Ok(AttrsTestEnum::ValB),
            Ok(_) => unreachable!(),
            Err(error) => Err(error),
        }
    }
}

impl From<AttrsTestEnum> for u32 {
    fn from(value: AttrsTestEnum) -> Self {
        discriminant_value(&simple_discriminants(), value.index())
    }
}

impl From<AttrsTestEnum> for u8 {
    fn from(value: AttrsTestEnum) -> Self {
        convert_checked::<u32, u8>(u32::from(value)).expect("All AttrsTestEnum values fit into a u8.")
    }
}

impl From<AttrsTestEnum> for u16 {
    fn from(value: AttrsTestEnum) -> Self {
        convert_checked::<u32, u16>(u32::from(value)).expect("All AttrsTestEnum values fit into a u16.")
    }
}

#[derive(Debug, PartialEq, Clone, Copy)]
enum BrokenTestEnum {
    Val,
}

impl From<BrokenTestEnum> for u32 {
    fn from(value: BrokenTestEnum) -> Self {
        let index = match value {
            BrokenTestEnum::Val => 0,
        };
        discriminant_value(&vec![65_536], index)
    }
}

impl From<BrokenTestEnum> for u16 {
    fn from(value: BrokenTestEnum) -> Self {
        convert_checked::<u32, u16>(u32::from(value)).expect("All BrokenTestEnum values fit into a u16.")
    }
}

#[test]
fn simple() {
    assert_eq!(SimpleTestEnum::try_from(0).unwrap(), SimpleTestEnum::ValA);
    assert_eq!(SimpleTestEnum::try_from(1).unwrap(), SimpleTestEnum::ValB);
    assert_eq!(
        SimpleTestEnum::try_from(2).unwrap_err(),
        TryFromReprError::<u32>::UnknownValue(2)
    );

    assert_eq!(u32::from(SimpleTestEnum::ValA), 0);
    assert_eq!(u32::from(SimpleTestEnum::ValB), 1);
}

#[test]
fn attributes() {
    assert_eq!(AttrsTestEnum::try_from(0).unwrap(), AttrsTestEnum::ValA);
    assert_eq!(AttrsTestEnum::try_from(1).unwrap(), AttrsTestEnum::ValB);
    assert_eq!(
        AttrsTestEnum::try_from(2).unwrap_err(),
        TryFromReprError::<u32>::UnknownValue(2)
    );

    assert_eq!(u32::from(AttrsTestEnum::ValA), 0);
    assert_eq!(u32::from(AttrsTestEnum::ValB), 1);

    assert_eq!(u16::from(AttrsTestEnum::ValA), 0);
    assert_eq!(u16::from(AttrsTestEnum::ValB), 1);

    assert_eq!(u8::from(AttrsTestEnum::ValA), 0);
    assert_eq!(u8::from(AttrsTestEnum::ValB), 1);
}

#[test]
#[should_panic]
fn panics() {
    let _ = u16::from(BrokenTestEnum::Val);
}

#[test]
fn round_trip_every_variant() {
    for variant in [SimpleTestEnum::ValA, SimpleTestEnum::ValB] {
        assert_eq!(SimpleTestEnum::try_from(u32::from(variant)), Ok(variant));
    }
}
