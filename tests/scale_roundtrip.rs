use core::convert::Infallible;
use core::fmt;
use serde::de::{self, Deserialize, Deserializer, SeqAccess, Visitor};
use serde::ser::{Serialize, SerializeStruct, Serializer};
use serde_scale::{Bytes, Read, Write};
use serde_scale_wrap::{decode_outcome, Error, InputToRead, OutputToWrite, Wrap};

#[derive(Debug, PartialEq)]
struct Foo {
    x: i32,
    s: String,
}

impl Serialize for Foo {
    fn serialize<S: Serializer>(&self, serializer: S) -> Result<S::Ok, S::Error> {
        let mut st = serializer.serialize_struct("Foo", 2)?;
        st.serialize_field("x", &self.x)?;
        st.serialize_field("s", &self.s)?;
        st.end()
    }
}

struct FooVisitor;

impl<'de> Visitor<'de> for FooVisitor {
    type Value = Foo;

    fn expecting(&self, f: &mut fmt::Formatter) -> fmt::Result {
        f.write_str("struct Foo")
    }

    fn visit_seq<A: SeqAccess<'de>>(self, mut seq: A) -> Result<Foo, A::Error> {
        let x = seq
            .next_element()?
            .ok_or_else(|| de::Error::invalid_length(0, &self))?;
        let s = seq
            .next_element()?
            .ok_or_else(|| de::Error::invalid_length(1, &self))?;
        Ok(Foo { x, s })
    }
}

impl<'de> Deserialize<'de> for Foo {
    fn deserialize<D: Deserializer<'de>>(deserializer: D) -> Result<Foo, D::Error> {
        deserializer.deserialize_struct("Foo", &["x", "s"], FooVisitor)
    }
}

struct Reading {
    celsius: f64,
}

impl Serialize for Reading {
    fn serialize<S: Serializer>(&self, serializer: S) -> Result<S::Ok, S::Error> {
        let mut st = serializer.serialize_struct("Reading", 1)?;
        st.serialize_field("celsius", &self.celsius)?;
        st.end()
    }
}

struct Sink(OutputToWrite);

impl Write for Sink {
    type Error = Infallible;

    fn write(&mut self, bytes: &[u8]) -> Result<(), Infallible> {
        self.0.write(bytes)
    }
}

struct Source<'a>(InputToRead<'a>);

impl<'de> Read<'de> for Source<'_> {
    type Error = &'static str;

    fn read_map<R, F>(&mut self, n: usize, f: F) -> Result<R, &'static str>
    where
        F: FnOnce(Bytes<'de, '_>) -> R,
    {
        self.0
            .read_map(n, |b: &[u8]| f(Bytes::Temporary(b)))
            .map_err(|e| e.message())
    }
}

fn encode<T: Serialize>(value: &Wrap<T>) -> Result<Vec<u8>, serde_scale::Error<Infallible>> {
    let mut serializer = serde_scale::Serializer::new(Sink(OutputToWrite::new(Vec::new())));
    value.0.serialize(&mut serializer)?;
    Ok(serializer.into_inner().0.into_inner())
}

fn decode<'de, T: Deserialize<'de>>(bytes: &[u8]) -> Result<Wrap<T>, Error> {
    let mut deserializer = serde_scale::Deserializer::new(Source(InputToRead::new(bytes)));
    decode_outcome(T::deserialize(&mut deserializer))
}

#[test]
fn foo_roundtrips() {
    let value = Foo { x: 3, s: "foo".into() };
    let serialized = encode(&Wrap(&value)).unwrap();
    let Wrap(deserialized) = decode::<Foo>(&serialized).unwrap();
    assert_eq!(value, deserialized);
}

#[test]
fn foo_is_correctly_serialized() {
    let value = Foo { x: 3, s: "foo".into() };
    let wrapped_serialized = encode(&Wrap(&value)).unwrap();
    let serialized = serde_scale::to_vec(&value).unwrap();
    assert_eq!(wrapped_serialized, serialized);
}

#[test]
fn foo_encodes_to_exact_bytes() {
    let value = Foo { x: 3, s: "foo".into() };
    assert_eq!(
        encode(&Wrap(&value)).unwrap(),
        vec![3, 0, 0, 0, 12, b'f', b'o', b'o']
    );
}

#[test]
fn primitives_roundtrip() {
    let values: Vec<u64> = vec![0, 1, 63, 64, u64::MAX];
    let bytes = encode(&Wrap(&values)).unwrap();
    assert_eq!(bytes, serde_scale::to_vec(&values).unwrap());
    assert_eq!(decode::<Vec<u64>>(&bytes), Ok(Wrap(values)));
    let pair: (u8, bool) = (200, true);
    let bytes = encode(&Wrap(pair)).unwrap();
    assert_eq!(bytes, vec![200, 1]);
    assert_eq!(decode::<(u8, bool)>(&bytes), Ok(Wrap(pair)));
}

#[test]
fn truncated_text_is_an_io_failure() {
    let bytes = [3u8, 0, 0, 0, 12, b'f'];
    let err = decode::<Foo>(&bytes).unwrap_err();
    assert_eq!(err, Error("Not enough data to fill buffer"));
    assert!(!err.message().is_empty());
    assert_ne!(err.message(), "Deserialization failed");
}

#[test]
fn empty_input_is_an_io_failure() {
    assert_eq!(decode::<u32>(&[]), Err(Error("Not enough data to fill buffer")));
    assert_eq!(decode::<u32>(&[1, 2, 3]), Err(Error("Not enough data to fill buffer")));
}

#[test]
fn malformed_bytes_are_flattened() {
    assert_eq!(decode::<bool>(&[2]), Err(Error("Deserialization failed")));
    assert_eq!(decode::<String>(&[4, 0xff]), Err(Error("Deserialization failed")));
}

#[test]
fn floats_cannot_be_encoded() {
    let r = encode(&Wrap(Reading { celsius: 21.5 }));
    assert!(matches!(r, Err(serde_scale::Error::FloatingPointUnsupported)));
}
