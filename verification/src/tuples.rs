//! The protocols for tuples, from one element to sixteen. A tuple is
//! serialized to an array of its elements, and is deserialized from, and
//! updated with, an array that has a value for each element; the first
//! element that fails ends it with its error.
use vstd::prelude::*;
use crate::deserialize::{array_of_at_least, array_of_length, Deserialize};
use crate::error::{Error, ErrorView};
use crate::intermediate::{lemma_values_of, values_of, Intermediate, Value};
use crate::laws::RoundTrip;
use crate::serialize::Serialize;
use crate::update::Update;

verus! {

impl<T0> Serialize for (T0,) where T0: Serialize {
    open spec fn serialized(&self) -> Result<Value, ErrorView> {
        match self.0.serialized() {
            Err(e) => Err(e),
            Ok(v0) => Ok(Value::Array(seq![v0])),
        }
    }

    fn serialize(&self) -> (r: Result<Intermediate, Error>) {
        let v0 = self.0.serialize()?;
        let ghost values = seq![v0@];
        let items = vec![v0];
        proof {
            lemma_values_of(items@);
            assert(values_of(items@) =~= values);
        }
        Ok(Intermediate::Array(items))
    }
}

impl<T0> Deserialize for (T0,) where T0: Deserialize {
    open spec fn deserialize_error(val: Value) -> Option<ErrorView> {
        match val {
            Value::Array(items) => if items.len() < 1 {
                Some(ErrorView::InvalidValue(array_of_length(1)))
            } else {
                T0::deserialize_error(items[0])
            },
            _ => Some(ErrorView::InvalidValue(array_of_length(1))),
        }
    }

    open spec fn deserializes_to(val: Value, out: Self) -> bool {
        val is Array && val->Array_0.len() >= 1
            && T0::deserializes_to(val->Array_0[0], out.0)
    }

    fn deserialize(val: &Intermediate) -> (r: Result<Self, Error>) {
        let items = match array_of_at_least(val, 1) {
            Ok(items) => items,
            Err(e) => {
                return Err(e);
            },
        };
        let v0 = match T0::deserialize(&items[0]) {
            Ok(v) => v,
            Err(e) => {
                return Err(e);
            },
        };
        Ok((v0,))
    }
}

impl<T0> Update for (T0,) where T0: Update {
    open spec fn update_error(&self, val: Value) -> Option<ErrorView> {
        match val {
            Value::Array(items) => if items.len() < 1 {
                Some(ErrorView::InvalidValue(array_of_length(1)))
            } else {
                self.0.update_error(items[0])
            },
            _ => Some(ErrorView::InvalidValue(array_of_length(1))),
        }
    }

    open spec fn updates_to(&self, val: Value, out: Self) -> bool {
        if val is Array && val->Array_0.len() >= 1 {
            let items = val->Array_0;
            {
                &&& self.0.updates_to(items[0], out.0)
            }
        } else {
            out == *self
        }
    }

    fn update(&mut self, val: &Intermediate) -> (r: Result<(), Error>) {
        let items = match array_of_at_least(val, 1) {
            Ok(items) => items,
            Err(e) => {
                return Err(e);
            },
        };
        match self.0.update(&items[0]) {
            Ok(_) => {},
            Err(e) => {
                return Err(e);
            },
        }
        Ok(())
    }
}

impl<T0: RoundTrip> RoundTrip for (T0,) {
    open spec fn lossless(&self) -> bool {
        self.0.lossless()
    }

    proof fn round_trip(&self) {
        self.0.round_trip();
    }
}

impl<T0, T1> Serialize for (T0, T1,) where T0: Serialize, T1: Serialize {
    open spec fn serialized(&self) -> Result<Value, ErrorView> {
        match self.0.serialized() {
            Err(e) => Err(e),
            Ok(v0) => 
            match self.1.serialized() {
                Err(e) => Err(e),
                Ok(v1) => Ok(Value::Array(seq![v0, v1])),
            },
        }
    }

    fn serialize(&self) -> (r: Result<Intermediate, Error>) {
        let v0 = self.0.serialize()?;
        let v1 = self.1.serialize()?;
        let ghost values = seq![v0@, v1@];
        let items = vec![v0, v1];
        proof {
            lemma_values_of(items@);
            assert(values_of(items@) =~= values);
        }
        Ok(Intermediate::Array(items))
    }
}

impl<T0, T1> Deserialize for (T0, T1,) where T0: Deserialize, T1: Deserialize {
    open spec fn deserialize_error(val: Value) -> Option<ErrorView> {
        match val {
            Value::Array(items) => if items.len() < 2 {
                Some(ErrorView::InvalidValue(array_of_length(2)))
            } else {
                match T0::deserialize_error(items[0]) {
                    Some(e) => Some(e),
                    None => 
                    T1::deserialize_error(items[1])
                }
            },
            _ => Some(ErrorView::InvalidValue(array_of_length(2))),
        }
    }

    open spec fn deserializes_to(val: Value, out: Self) -> bool {
        val is Array && val->Array_0.len() >= 2
            && T0::deserializes_to(val->Array_0[0], out.0)
            && T1::deserializes_to(val->Array_0[1], out.1)
    }

    fn deserialize(val: &Intermediate) -> (r: Result<Self, Error>) {
        let items = match array_of_at_least(val, 2) {
            Ok(items) => items,
            Err(e) => {
                return Err(e);
            },
        };
        let v0 = match T0::deserialize(&items[0]) {
            Ok(v) => v,
            Err(e) => {
                return Err(e);
            },
        };
        let v1 = match T1::deserialize(&items[1]) {
            Ok(v) => v,
            Err(e) => {
                return Err(e);
            },
        };
        Ok((v0, v1,))
    }
}

impl<T0, T1> Update for (T0, T1,) where T0: Update, T1: Update {
    open spec fn update_error(&self, val: Value) -> Option<ErrorView> {
        match val {
            Value::Array(items) => if items.len() < 2 {
                Some(ErrorView::InvalidValue(array_of_length(2)))
            } else {
                match self.0.update_error(items[0]) {
                    Some(e) => Some(e),
                    None => 
                    self.1.update_error(items[1])
                }
            },
            _ => Some(ErrorView::InvalidValue(array_of_length(2))),
        }
    }

    open spec fn updates_to(&self, val: Value, out: Self) -> bool {
        if val is Array && val->Array_0.len() >= 2 {
            let items = val->Array_0;
            {
                &&& self.0.updates_to(items[0], out.0)
                &&& if self.0.update_error(items[0]) is None {
                    self.1.updates_to(items[1], out.1)
                } else {
                    out.1 == self.1
                }
            }
        } else {
            out == *self
        }
    }

    fn update(&mut self, val: &Intermediate) -> (r: Result<(), Error>) {
        let items = match array_of_at_least(val, 2) {
            Ok(items) => items,
            Err(e) => {
                return Err(e);
            },
        };
        match self.0.update(&items[0]) {
            Ok(_) => {},
            Err(e) => {
                return Err(e);
            },
        }
        match self.1.update(&items[1]) {
            Ok(_) => {},
            Err(e) => {
                return Err(e);
            },
        }
        Ok(())
    }
}

impl<T0: RoundTrip, T1: RoundTrip> RoundTrip for (T0, T1,) {
    open spec fn lossless(&self) -> bool {
        self.0.lossless()
            && self.1.lossless()
    }

    proof fn round_trip(&self) {
        self.0.round_trip();
        self.1.round_trip();
    }
}

impl<T0, T1, T2> Serialize for (T0, T1, T2,) where T0: Serialize, T1: Serialize, T2: Serialize {
    open spec fn serialized(&self) -> Result<Value, ErrorView> {
        match self.0.serialized() {
            Err(e) => Err(e),
            Ok(v0) => 
            match self.1.serialized() {
                Err(e) => Err(e),
                Ok(v1) => 
                match self.2.serialized() {
                    Err(e) => Err(e),
                    Ok(v2) => Ok(Value::Array(seq![v0, v1, v2])),
                },
            },
        }
    }

    fn serialize(&self) -> (r: Result<Intermediate, Error>) {
        let v0 = self.0.serialize()?;
        let v1 = self.1.serialize()?;
        let v2 = self.2.serialize()?;
        let ghost values = seq![v0@, v1@, v2@];
        let items = vec![v0, v1, v2];
        proof {
            lemma_values_of(items@);
            assert(values_of(items@) =~= values);
        }
        Ok(Intermediate::Array(items))
    }
}

impl<T0, T1, T2> Deserialize for (T0, T1, T2,) where T0: Deserialize, T1: Deserialize, T2: Deserialize {
    open spec fn deserialize_error(val: Value) -> Option<ErrorView> {
        match val {
            Value::Array(items) => if items.len() < 3 {
                Some(ErrorView::InvalidValue(array_of_length(3)))
            } else {
                match T0::deserialize_error(items[0]) {
                    Some(e) => Some(e),
                    None => 
                    match T1::deserialize_error(items[1]) {
                        Some(e) => Some(e),
                        None => 
                        T2::deserialize_error(items[2])
                    },
                }
            },
            _ => Some(ErrorView::InvalidValue(array_of_length(3))),
        }
    }

    open spec fn deserializes_to(val: Value, out: Self) -> bool {
        val is Array && val->Array_0.len() >= 3
            && T0::deserializes_to(val->Array_0[0], out.0)
            && T1::deserializes_to(val->Array_0[1], out.1)
            && T2::deserializes_to(val->Array_0[2], out.2)
    }

    fn deserialize(val: &Intermediate) -> (r: Result<Self, Error>) {
        let items = match array_of_at_least(val, 3) {
            Ok(items) => items,
            Err(e) => {
                return Err(e);
            },
        };
        let v0 = match T0::deserialize(&items[0]) {
            Ok(v) => v,
            Err(e) => {
                return Err(e);
            },
        };
        let v1 = match T1::deserialize(&items[1]) {
            Ok(v) => v,
            Err(e) => {
                return Err(e);
            },
        };
        let v2 = match T2::deserialize(&items[2]) {
            Ok(v) => v,
            Err(e) => {
                return Err(e);
            },
        };
        Ok((v0, v1, v2,))
    }
}

impl<T0, T1, T2> Update for (T0, T1, T2,) where T0: Update, T1: Update, T2: Update {
    open spec fn update_error(&self, val: Value) -> Option<ErrorView> {
        match val {
            Value::Array(items) => if items.len() < 3 {
                Some(ErrorView::InvalidValue(array_of_length(3)))
            } else {
                match self.0.update_error(items[0]) {
                    Some(e) => Some(e),
                    None => 
                    match self.1.update_error(items[1]) {
                        Some(e) => Some(e),
                        None => 
                        self.2.update_error(items[2])
                    },
                }
            },
            _ => Some(ErrorView::InvalidValue(array_of_length(3))),
        }
    }

    open spec fn updates_to(&self, val: Value, out: Self) -> bool {
        if val is Array && val->Array_0.len() >= 3 {
            let items = val->Array_0;
            {
                &&& self.0.updates_to(items[0], out.0)
                &&& if self.0.update_error(items[0]) is None {
                    self.1.updates_to(items[1], out.1)
                } else {
                    out.1 == self.1
                }
                &&& if self.0.update_error(items[0]) is None
                    && self.1.update_error(items[1]) is None {
                    self.2.updates_to(items[2], out.2)
                } else {
                    out.2 == self.2
                }
            }
        } else {
            out == *self
        }
    }

    fn update(&mut self, val: &Intermediate) -> (r: Result<(), Error>) {
        let items = match array_of_at_least(val, 3) {
            Ok(items) => items,
            Err(e) => {
                return Err(e);
            },
        };
        match self.0.update(&items[0]) {
            Ok(_) => {},
            Err(e) => {
                return Err(e);
            },
        }
        match self.1.update(&items[1]) {
            Ok(_) => {},
            Err(e) => {
                return Err(e);
            },
        }
        match self.2.update(&items[2]) {
            Ok(_) => {},
            Err(e) => {
                return Err(e);
            },
        }
        Ok(())
    }
}

impl<T0: RoundTrip, T1: RoundTrip, T2: RoundTrip> RoundTrip for (T0, T1, T2,) {
    open spec fn lossless(&self) -> bool {
        self.0.lossless()
            && self.1.lossless()
            && self.2.lossless()
    }

    proof fn round_trip(&self) {
        self.0.round_trip();
        self.1.round_trip();
        self.2.round_trip();
    }
}

impl<T0, T1, T2, T3> Serialize for (T0, T1, T2, T3,) where T0: Serialize, T1: Serialize, T2: Serialize, T3: Serialize {
    open spec fn serialized(&self) -> Result<Value, ErrorView> {
        match self.0.serialized() {
            Err(e) => Err(e),
            Ok(v0) => 
            match self.1.serialized() {
                Err(e) => Err(e),
                Ok(v1) => 
                match self.2.serialized() {
                    Err(e) => Err(e),
                    Ok(v2) => 
                    match self.3.serialized() {
                        Err(e) => Err(e),
                        Ok(v3) => Ok(Value::Array(seq![v0, v1, v2, v3])),
                    },
                },
            },
        }
    }

    fn serialize(&self) -> (r: Result<Intermediate, Error>) {
        let v0 = self.0.serialize()?;
        let v1 = self.1.serialize()?;
        let v2 = self.2.serialize()?;
        let v3 = self.3.serialize()?;
        let ghost values = seq![v0@, v1@, v2@, v3@];
        let items = vec![v0, v1, v2, v3];
        proof {
            lemma_values_of(items@);
            assert(values_of(items@) =~= values);
        }
        Ok(Intermediate::Array(items))
    }
}

impl<T0, T1, T2, T3> Deserialize for (T0, T1, T2, T3,) where T0: Deserialize, T1: Deserialize, T2: Deserialize, T3: Deserialize {
    open spec fn deserialize_error(val: Value) -> Option<ErrorView> {
        match val {
            Value::Array(items) => if items.len() < 4 {
                Some(ErrorView::InvalidValue(array_of_length(4)))
            } else {
                match T0::deserialize_error(items[0]) {
                    Some(e) => Some(e),
                    None => 
                    match T1::deserialize_error(items[1]) {
                        Some(e) => Some(e),
                        None => 
                        match T2::deserialize_error(items[2]) {
                            Some(e) => Some(e),
                            None => 
                            T3::deserialize_error(items[3])
                        },
                    },
                }
            },
            _ => Some(ErrorView::InvalidValue(array_of_length(4))),
        }
    }

    open spec fn deserializes_to(val: Value, out: Self) -> bool {
        val is Array && val->Array_0.len() >= 4
            && T0::deserializes_to(val->Array_0[0], out.0)
            && T1::deserializes_to(val->Array_0[1], out.1)
            && T2::deserializes_to(val->Array_0[2], out.2)
            && T3::deserializes_to(val->Array_0[3], out.3)
    }

    fn deserialize(val: &Intermediate) -> (r: Result<Self, Error>) {
        let items = match array_of_at_least(val, 4) {
            Ok(items) => items,
            Err(e) => {
                return Err(e);
            },
        };
        let v0 = match T0::deserialize(&items[0]) {
            Ok(v) => v,
            Err(e) => {
                return Err(e);
            },
        };
        let v1 = match T1::deserialize(&items[1]) {
            Ok(v) => v,
            Err(e) => {
                return Err(e);
            },
        };
        let v2 = match T2::deserialize(&items[2]) {
            Ok(v) => v,
            Err(e) => {
                return Err(e);
            },
        };
        let v3 = match T3::deserialize(&items[3]) {
            Ok(v) => v,
            Err(e) => {
                return Err(e);
            },
        };
        Ok((v0, v1, v2, v3,))
    }
}

impl<T0, T1, T2, T3> Update for (T0, T1, T2, T3,) where T0: Update, T1: Update, T2: Update, T3: Update {
    open spec fn update_error(&self, val: Value) -> Option<ErrorView> {
        match val {
            Value::Array(items) => if items.len() < 4 {
                Some(ErrorView::InvalidValue(array_of_length(4)))
            } else {
                match self.0.update_error(items[0]) {
                    Some(e) => Some(e),
                    None => 
                    match self.1.update_error(items[1]) {
                        Some(e) => Some(e),
                        None => 
                        match self.2.update_error(items[2]) {
                            Some(e) => Some(e),
                            None => 
                            self.3.update_error(items[3])
                        },
                    },
                }
            },
            _ => Some(ErrorView::InvalidValue(array_of_length(4))),
        }
    }

    open spec fn updates_to(&self, val: Value, out: Self) -> bool {
        if val is Array && val->Array_0.len() >= 4 {
            let items = val->Array_0;
            {
                &&& self.0.updates_to(items[0], out.0)
                &&& if self.0.update_error(items[0]) is None {
                    self.1.updates_to(items[1], out.1)
                } else {
                    out.1 == self.1
                }
                &&& if self.0.update_error(items[0]) is None
                    && self.1.update_error(items[1]) is None {
                    self.2.updates_to(items[2], out.2)
                } else {
                    out.2 == self.2
                }
                &&& if self.0.update_error(items[0]) is None
                    && self.1.update_error(items[1]) is None
                    && self.2.update_error(items[2]) is None {
                    self.3.updates_to(items[3], out.3)
                } else {
                    out.3 == self.3
                }
            }
        } else {
            out == *self
        }
    }

    fn update(&mut self, val: &Intermediate) -> (r: Result<(), Error>) {
        let items = match array_of_at_least(val, 4) {
            Ok(items) => items,
            Err(e) => {
                return Err(e);
            },
        };
        match self.0.update(&items[0]) {
            Ok(_) => {},
            Err(e) => {
                return Err(e);
            },
        }
        match self.1.update(&items[1]) {
            Ok(_) => {},
            Err(e) => {
                return Err(e);
            },
        }
        match self.2.update(&items[2]) {
            Ok(_) => {},
            Err(e) => {
                return Err(e);
            },
        }
        match self.3.update(&items[3]) {
            Ok(_) => {},
            Err(e) => {
                return Err(e);
            },
        }
        Ok(())
    }
}

impl<T0: RoundTrip, T1: RoundTrip, T2: RoundTrip, T3: RoundTrip> RoundTrip for (T0, T1, T2, T3,) {
    open spec fn lossless(&self) -> bool {
        self.0.lossless()
            && self.1.lossless()
            && self.2.lossless()
            && self.3.lossless()
    }

    proof fn round_trip(&self) {
        self.0.round_trip();
        self.1.round_trip();
        self.2.round_trip();
        self.3.round_trip();
    }
}

impl<T0, T1, T2, T3, T4> Serialize for (T0, T1, T2, T3, T4,) where T0: Serialize, T1: Serialize, T2: Serialize, T3: Serialize, T4: Serialize {
    open spec fn serialized(&self) -> Result<Value, ErrorView> {
        match self.0.serialized() {
            Err(e) => Err(e),
            Ok(v0) => 
            match self.1.serialized() {
                Err(e) => Err(e),
                Ok(v1) => 
                match self.2.serialized() {
                    Err(e) => Err(e),
                    Ok(v2) => 
                    match self.3.serialized() {
                        Err(e) => Err(e),
                        Ok(v3) => 
                        match self.4.serialized() {
                            Err(e) => Err(e),
                            Ok(v4) => Ok(Value::Array(seq![v0, v1, v2, v3, v4])),
                        },
                    },
                },
            },
        }
    }

    fn serialize(&self) -> (r: Result<Intermediate, Error>) {
        let v0 = self.0.serialize()?;
        let v1 = self.1.serialize()?;
        let v2 = self.2.serialize()?;
        let v3 = self.3.serialize()?;
        let v4 = self.4.serialize()?;
        let ghost values = seq![v0@, v1@, v2@, v3@, v4@];
        let items = vec![v0, v1, v2, v3, v4];
        proof {
            lemma_values_of(items@);
            assert(values_of(items@) =~= values);
        }
        Ok(Intermediate::Array(items))
    }
}

impl<T0, T1, T2, T3, T4> Deserialize for (T0, T1, T2, T3, T4,) where T0: Deserialize, T1: Deserialize, T2: Deserialize, T3: Deserialize, T4: Deserialize {
    open spec fn deserialize_error(val: Value) -> Option<ErrorView> {
        match val {
            Value::Array(items) => if items.len() < 5 {
                Some(ErrorView::InvalidValue(array_of_length(5)))
            } else {
                match T0::deserialize_error(items[0]) {
                    Some(e) => Some(e),
                    None => 
                    match T1::deserialize_error(items[1]) {
                        Some(e) => Some(e),
                        None => 
                        match T2::deserialize_error(items[2]) {
                            Some(e) => Some(e),
                            None => 
                            match T3::deserialize_error(items[3]) {
                                Some(e) => Some(e),
                                None => 
                                T4::deserialize_error(items[4])
                            },
                        },
                    },
                }
            },
            _ => Some(ErrorView::InvalidValue(array_of_length(5))),
        }
    }

    open spec fn deserializes_to(val: Value, out: Self) -> bool {
        val is Array && val->Array_0.len() >= 5
            && T0::deserializes_to(val->Array_0[0], out.0)
            && T1::deserializes_to(val->Array_0[1], out.1)
            && T2::deserializes_to(val->Array_0[2], out.2)
            && T3::deserializes_to(val->Array_0[3], out.3)
            && T4::deserializes_to(val->Array_0[4], out.4)
    }

    fn deserialize(val: &Intermediate) -> (r: Result<Self, Error>) {
        let items = match array_of_at_least(val, 5) {
            Ok(items) => items,
            Err(e) => {
                return Err(e);
            },
        };
        let v0 = match T0::deserialize(&items[0]) {
            Ok(v) => v,
            Err(e) => {
                return Err(e);
            },
        };
        let v1 = match T1::deserialize(&items[1]) {
            Ok(v) => v,
            Err(e) => {
                return Err(e);
            },
        };
        let v2 = match T2::deserialize(&items[2]) {
            Ok(v) => v,
            Err(e) => {
                return Err(e);
            },
        };
        let v3 = match T3::deserialize(&items[3]) {
            Ok(v) => v,
            Err(e) => {
                return Err(e);
            },
        };
        let v4 = match T4::deserialize(&items[4]) {
            Ok(v) => v,
            Err(e) => {
                return Err(e);
            },
        };
        Ok((v0, v1, v2, v3, v4,))
    }
}

impl<T0, T1, T2, T3, T4> Update for (T0, T1, T2, T3, T4,) where T0: Update, T1: Update, T2: Update, T3: Update, T4: Update {
    open spec fn update_error(&self, val: Value) -> Option<ErrorView> {
        match val {
            Value::Array(items) => if items.len() < 5 {
                Some(ErrorView::InvalidValue(array_of_length(5)))
            } else {
                match self.0.update_error(items[0]) {
                    Some(e) => Some(e),
                    None => 
                    match self.1.update_error(items[1]) {
                        Some(e) => Some(e),
                        None => 
                        match self.2.update_error(items[2]) {
                            Some(e) => Some(e),
                            None => 
                            match self.3.update_error(items[3]) {
                                Some(e) => Some(e),
                                None => 
                                self.4.update_error(items[4])
                            },
                        },
                    },
                }
            },
            _ => Some(ErrorView::InvalidValue(array_of_length(5))),
        }
    }

    open spec fn updates_to(&self, val: Value, out: Self) -> bool {
        if val is Array && val->Array_0.len() >= 5 {
            let items = val->Array_0;
            {
                &&& self.0.updates_to(items[0], out.0)
                &&& if self.0.update_error(items[0]) is None {
                    self.1.updates_to(items[1], out.1)
                } else {
                    out.1 == self.1
                }
                &&& if self.0.update_error(items[0]) is None
                    && self.1.update_error(items[1]) is None {
                    self.2.updates_to(items[2], out.2)
                } else {
                    out.2 == self.2
                }
                &&& if self.0.update_error(items[0]) is None
                    && self.1.update_error(items[1]) is None
                    && self.2.update_error(items[2]) is None {
                    self.3.updates_to(items[3], out.3)
                } else {
                    out.3 == self.3
                }
                &&& if self.0.update_error(items[0]) is None
                    && self.1.update_error(items[1]) is None
                    && self.2.update_error(items[2]) is None
                    && self.3.update_error(items[3]) is None {
                    self.4.updates_to(items[4], out.4)
                } else {
                    out.4 == self.4
                }
            }
        } else {
            out == *self
        }
    }

    fn update(&mut self, val: &Intermediate) -> (r: Result<(), Error>) {
        let items = match array_of_at_least(val, 5) {
            Ok(items) => items,
            Err(e) => {
                return Err(e);
            },
        };
        match self.0.update(&items[0]) {
            Ok(_) => {},
            Err(e) => {
                return Err(e);
            },
        }
        match self.1.update(&items[1]) {
            Ok(_) => {},
            Err(e) => {
                return Err(e);
            },
        }
        match self.2.update(&items[2]) {
            Ok(_) => {},
            Err(e) => {
                return Err(e);
            },
        }
        match self.3.update(&items[3]) {
            Ok(_) => {},
            Err(e) => {
                return Err(e);
            },
        }
        match self.4.update(&items[4]) {
            Ok(_) => {},
            Err(e) => {
                return Err(e);
            },
        }
        Ok(())
    }
}

impl<T0: RoundTrip, T1: RoundTrip, T2: RoundTrip, T3: RoundTrip, T4: RoundTrip> RoundTrip for (T0, T1, T2, T3, T4,) {
    open spec fn lossless(&self) -> bool {
        self.0.lossless()
            && self.1.lossless()
            && self.2.lossless()
            && self.3.lossless()
            && self.4.lossless()
    }

    proof fn round_trip(&self) {
        self.0.round_trip();
        self.1.round_trip();
        self.2.round_trip();
        self.3.round_trip();
        self.4.round_trip();
    }
}

impl<T0, T1, T2, T3, T4, T5> Serialize for (T0, T1, T2, T3, T4, T5,) where T0: Serialize, T1: Serialize, T2: Serialize, T3: Serialize, T4: Serialize, T5: Serialize {
    open spec fn serialized(&self) -> Result<Value, ErrorView> {
        match self.0.serialized() {
            Err(e) => Err(e),
            Ok(v0) => 
            match self.1.serialized() {
                Err(e) => Err(e),
                Ok(v1) => 
                match self.2.serialized() {
                    Err(e) => Err(e),
                    Ok(v2) => 
                    match self.3.serialized() {
                        Err(e) => Err(e),
                        Ok(v3) => 
                        match self.4.serialized() {
                            Err(e) => Err(e),
                            Ok(v4) => 
                            match self.5.serialized() {
                                Err(e) => Err(e),
                                Ok(v5) => Ok(Value::Array(seq![v0, v1, v2, v3, v4, v5])),
                            },
                        },
                    },
                },
            },
        }
    }

    fn serialize(&self) -> (r: Result<Intermediate, Error>) {
        let v0 = self.0.serialize()?;
        let v1 = self.1.serialize()?;
        let v2 = self.2.serialize()?;
        let v3 = self.3.serialize()?;
        let v4 = self.4.serialize()?;
        let v5 = self.5.serialize()?;
        let ghost values = seq![v0@, v1@, v2@, v3@, v4@, v5@];
        let items = vec![v0, v1, v2, v3, v4, v5];
        proof {
            lemma_values_of(items@);
            assert(values_of(items@) =~= values);
        }
        Ok(Intermediate::Array(items))
    }
}

impl<T0, T1, T2, T3, T4, T5> Deserialize for (T0, T1, T2, T3, T4, T5,) where T0: Deserialize, T1: Deserialize, T2: Deserialize, T3: Deserialize, T4: Deserialize, T5: Deserialize {
    open spec fn deserialize_error(val: Value) -> Option<ErrorView> {
        match val {
            Value::Array(items) => if items.len() < 6 {
                Some(ErrorView::InvalidValue(array_of_length(6)))
            } else {
                match T0::deserialize_error(items[0]) {
                    Some(e) => Some(e),
                    None => 
                    match T1::deserialize_error(items[1]) {
                        Some(e) => Some(e),
                        None => 
                        match T2::deserialize_error(items[2]) {
                            Some(e) => Some(e),
                            None => 
                            match T3::deserialize_error(items[3]) {
                                Some(e) => Some(e),
                                None => 
                                match T4::deserialize_error(items[4]) {
                                    Some(e) => Some(e),
                                    None => 
                                    T5::deserialize_error(items[5])
                                },
                            },
                        },
                    },
                }
            },
            _ => Some(ErrorView::InvalidValue(array_of_length(6))),
        }
    }

    open spec fn deserializes_to(val: Value, out: Self) -> bool {
        val is Array && val->Array_0.len() >= 6
            && T0::deserializes_to(val->Array_0[0], out.0)
            && T1::deserializes_to(val->Array_0[1], out.1)
            && T2::deserializes_to(val->Array_0[2], out.2)
            && T3::deserializes_to(val->Array_0[3], out.3)
            && T4::deserializes_to(val->Array_0[4], out.4)
            && T5::deserializes_to(val->Array_0[5], out.5)
    }

    fn deserialize(val: &Intermediate) -> (r: Result<Self, Error>) {
        let items = match array_of_at_least(val, 6) {
            Ok(items) => items,
            Err(e) => {
                return Err(e);
            },
        };
        let v0 = match T0::deserialize(&items[0]) {
            Ok(v) => v,
            Err(e) => {
                return Err(e);
            },
        };
        let v1 = match T1::deserialize(&items[1]) {
            Ok(v) => v,
            Err(e) => {
                return Err(e);
            },
        };
        let v2 = match T2::deserialize(&items[2]) {
            Ok(v) => v,
            Err(e) => {
                return Err(e);
            },
        };
        let v3 = match T3::deserialize(&items[3]) {
            Ok(v) => v,
            Err(e) => {
                return Err(e);
            },
        };
        let v4 = match T4::deserialize(&items[4]) {
            Ok(v) => v,
            Err(e) => {
                return Err(e);
            },
        };
        let v5 = match T5::deserialize(&items[5]) {
            Ok(v) => v,
            Err(e) => {
                return Err(e);
            },
        };
        Ok((v0, v1, v2, v3, v4, v5,))
    }
}

impl<T0, T1, T2, T3, T4, T5> Update for (T0, T1, T2, T3, T4, T5,) where T0: Update, T1: Update, T2: Update, T3: Update, T4: Update, T5: Update {
    open spec fn update_error(&self, val: Value) -> Option<ErrorView> {
        match val {
            Value::Array(items) => if items.len() < 6 {
                Some(ErrorView::InvalidValue(array_of_length(6)))
            } else {
                match self.0.update_error(items[0]) {
                    Some(e) => Some(e),
                    None => 
                    match self.1.update_error(items[1]) {
                        Some(e) => Some(e),
                        None => 
                        match self.2.update_error(items[2]) {
                            Some(e) => Some(e),
                            None => 
                            match self.3.update_error(items[3]) {
                                Some(e) => Some(e),
                                None => 
                                match self.4.update_error(items[4]) {
                                    Some(e) => Some(e),
                                    None => 
                                    self.5.update_error(items[5])
                                },
                            },
                        },
                    },
                }
            },
            _ => Some(ErrorView::InvalidValue(array_of_length(6))),
        }
    }

    open spec fn updates_to(&self, val: Value, out: Self) -> bool {
        if val is Array && val->Array_0.len() >= 6 {
            let items = val->Array_0;
            {
                &&& self.0.updates_to(items[0], out.0)
                &&& if self.0.update_error(items[0]) is None {
                    self.1.updates_to(items[1], out.1)
                } else {
                    out.1 == self.1
                }
                &&& if self.0.update_error(items[0]) is None
                    && self.1.update_error(items[1]) is None {
                    self.2.updates_to(items[2], out.2)
                } else {
                    out.2 == self.2
                }
                &&& if self.0.update_error(items[0]) is None
                    && self.1.update_error(items[1]) is None
                    && self.2.update_error(items[2]) is None {
                    self.3.updates_to(items[3], out.3)
                } else {
                    out.3 == self.3
                }
                &&& if self.0.update_error(items[0]) is None
                    && self.1.update_error(items[1]) is None
                    && self.2.update_error(items[2]) is None
                    && self.3.update_error(items[3]) is None {
                    self.4.updates_to(items[4], out.4)
                } else {
                    out.4 == self.4
                }
                &&& if self.0.update_error(items[0]) is None
                    && self.1.update_error(items[1]) is None
                    && self.2.update_error(items[2]) is None
                    && self.3.update_error(items[3]) is None
                    && self.4.update_error(items[4]) is None {
                    self.5.updates_to(items[5], out.5)
                } else {
                    out.5 == self.5
                }
            }
        } else {
            out == *self
        }
    }

    fn update(&mut self, val: &Intermediate) -> (r: Result<(), Error>) {
        let items = match array_of_at_least(val, 6) {
            Ok(items) => items,
            Err(e) => {
                return Err(e);
            },
        };
        match self.0.update(&items[0]) {
            Ok(_) => {},
            Err(e) => {
                return Err(e);
            },
        }
        match self.1.update(&items[1]) {
            Ok(_) => {},
            Err(e) => {
                return Err(e);
            },
        }
        match self.2.update(&items[2]) {
            Ok(_) => {},
            Err(e) => {
                return Err(e);
            },
        }
        match self.3.update(&items[3]) {
            Ok(_) => {},
            Err(e) => {
                return Err(e);
            },
        }
        match self.4.update(&items[4]) {
            Ok(_) => {},
            Err(e) => {
                return Err(e);
            },
        }
        match self.5.update(&items[5]) {
            Ok(_) => {},
            Err(e) => {
                return Err(e);
            },
        }
        Ok(())
    }
}

impl<T0: RoundTrip, T1: RoundTrip, T2: RoundTrip, T3: RoundTrip, T4: RoundTrip, T5: RoundTrip> RoundTrip for (T0, T1, T2, T3, T4, T5,) {
    open spec fn lossless(&self) -> bool {
        self.0.lossless()
            && self.1.lossless()
            && self.2.lossless()
            && self.3.lossless()
            && self.4.lossless()
            && self.5.lossless()
    }

    proof fn round_trip(&self) {
        self.0.round_trip();
        self.1.round_trip();
        self.2.round_trip();
        self.3.round_trip();
        self.4.round_trip();
        self.5.round_trip();
    }
}

impl<T0, T1, T2, T3, T4, T5, T6> Serialize for (T0, T1, T2, T3, T4, T5, T6,) where T0: Serialize, T1: Serialize, T2: Serialize, T3: Serialize, T4: Serialize, T5: Serialize, T6: Serialize {
    open spec fn serialized(&self) -> Result<Value, ErrorView> {
        match self.0.serialized() {
            Err(e) => Err(e),
            Ok(v0) => 
            match self.1.serialized() {
                Err(e) => Err(e),
                Ok(v1) => 
                match self.2.serialized() {
                    Err(e) => Err(e),
                    Ok(v2) => 
                    match self.3.serialized() {
                        Err(e) => Err(e),
                        Ok(v3) => 
                        match self.4.serialized() {
                            Err(e) => Err(e),
                            Ok(v4) => 
                            match self.5.serialized() {
                                Err(e) => Err(e),
                                Ok(v5) => 
                                match self.6.serialized() {
                                    Err(e) => Err(e),
                                    Ok(v6) => Ok(Value::Array(seq![v0, v1, v2, v3, v4, v5, v6])),
                                },
                            },
                        },
                    },
                },
            },
        }
    }

    fn serialize(&self) -> (r: Result<Intermediate, Error>) {
        let v0 = self.0.serialize()?;
        let v1 = self.1.serialize()?;
        let v2 = self.2.serialize()?;
        let v3 = self.3.serialize()?;
        let v4 = self.4.serialize()?;
        let v5 = self.5.serialize()?;
        let v6 = self.6.serialize()?;
        let ghost values = seq![v0@, v1@, v2@, v3@, v4@, v5@, v6@];
        let items = vec![v0, v1, v2, v3, v4, v5, v6];
        proof {
            lemma_values_of(items@);
            assert(values_of(items@) =~= values);
        }
        Ok(Intermediate::Array(items))
    }
}

impl<T0, T1, T2, T3, T4, T5, T6> Deserialize for (T0, T1, T2, T3, T4, T5, T6,) where T0: Deserialize, T1: Deserialize, T2: Deserialize, T3: Deserialize, T4: Deserialize, T5: Deserialize, T6: Deserialize {
    open spec fn deserialize_error(val: Value) -> Option<ErrorView> {
        match val {
            Value::Array(items) => if items.len() < 7 {
                Some(ErrorView::InvalidValue(array_of_length(7)))
            } else {
                match T0::deserialize_error(items[0]) {
                    Some(e) => Some(e),
                    None => 
                    match T1::deserialize_error(items[1]) {
                        Some(e) => Some(e),
                        None => 
                        match T2::deserialize_error(items[2]) {
                            Some(e) => Some(e),
                            None => 
                            match T3::deserialize_error(items[3]) {
                                Some(e) => Some(e),
                                None => 
                                match T4::deserialize_error(items[4]) {
                                    Some(e) => Some(e),
                                    None => 
                                    match T5::deserialize_error(items[5]) {
                                        Some(e) => Some(e),
                                        None => 
                                        T6::deserialize_error(items[6])
                                    },
                                },
                            },
                        },
                    },
                }
            },
            _ => Some(ErrorView::InvalidValue(array_of_length(7))),
        }
    }

    open spec fn deserializes_to(val: Value, out: Self) -> bool {
        val is Array && val->Array_0.len() >= 7
            && T0::deserializes_to(val->Array_0[0], out.0)
            && T1::deserializes_to(val->Array_0[1], out.1)
            && T2::deserializes_to(val->Array_0[2], out.2)
            && T3::deserializes_to(val->Array_0[3], out.3)
            && T4::deserializes_to(val->Array_0[4], out.4)
            && T5::deserializes_to(val->Array_0[5], out.5)
            && T6::deserializes_to(val->Array_0[6], out.6)
    }

    fn deserialize(val: &Intermediate) -> (r: Result<Self, Error>) {
        let items = match array_of_at_least(val, 7) {
            Ok(items) => items,
            Err(e) => {
                return Err(e);
            },
        };
        let v0 = match T0::deserialize(&items[0]) {
            Ok(v) => v,
            Err(e) => {
                return Err(e);
            },
        };
        let v1 = match T1::deserialize(&items[1]) {
            Ok(v) => v,
            Err(e) => {
                return Err(e);
            },
        };
        let v2 = match T2::deserialize(&items[2]) {
            Ok(v) => v,
            Err(e) => {
                return Err(e);
            },
        };
        let v3 = match T3::deserialize(&items[3]) {
            Ok(v) => v,
            Err(e) => {
                return Err(e);
            },
        };
        let v4 = match T4::deserialize(&items[4]) {
            Ok(v) => v,
            Err(e) => {
                return Err(e);
            },
        };
        let v5 = match T5::deserialize(&items[5]) {
            Ok(v) => v,
            Err(e) => {
                return Err(e);
            },
        };
        let v6 = match T6::deserialize(&items[6]) {
            Ok(v) => v,
            Err(e) => {
                return Err(e);
            },
        };
        Ok((v0, v1, v2, v3, v4, v5, v6,))
    }
}

impl<T0, T1, T2, T3, T4, T5, T6> Update for (T0, T1, T2, T3, T4, T5, T6,) where T0: Update, T1: Update, T2: Update, T3: Update, T4: Update, T5: Update, T6: Update {
    open spec fn update_error(&self, val: Value) -> Option<ErrorView> {
        match val {
            Value::Array(items) => if items.len() < 7 {
                Some(ErrorView::InvalidValue(array_of_length(7)))
            } else {
                match self.0.update_error(items[0]) {
                    Some(e) => Some(e),
                    None => 
                    match self.1.update_error(items[1]) {
                        Some(e) => Some(e),
                        None => 
                        match self.2.update_error(items[2]) {
                            Some(e) => Some(e),
                            None => 
                            match self.3.update_error(items[3]) {
                                Some(e) => Some(e),
                                None => 
                                match self.4.update_error(items[4]) {
                                    Some(e) => Some(e),
                                    None => 
                                    match self.5.update_error(items[5]) {
                                        Some(e) => Some(e),
                                        None => 
                                        self.6.update_error(items[6])
                                    },
                                },
                            },
                        },
                    },
                }
            },
            _ => Some(ErrorView::InvalidValue(array_of_length(7))),
        }
    }

    open spec fn updates_to(&self, val: Value, out: Self) -> bool {
        if val is Array && val->Array_0.len() >= 7 {
            let items = val->Array_0;
            {
                &&& self.0.updates_to(items[0], out.0)
                &&& if self.0.update_error(items[0]) is None {
                    self.1.updates_to(items[1], out.1)
                } else {
                    out.1 == self.1
                }
                &&& if self.0.update_error(items[0]) is None
                    && self.1.update_error(items[1]) is None {
                    self.2.updates_to(items[2], out.2)
                } else {
                    out.2 == self.2
                }
                &&& if self.0.update_error(items[0]) is None
                    && self.1.update_error(items[1]) is None
                    && self.2.update_error(items[2]) is None {
                    self.3.updates_to(items[3], out.3)
                } else {
                    out.3 == self.3
                }
                &&& if self.0.update_error(items[0]) is None
                    && self.1.update_error(items[1]) is None
                    && self.2.update_error(items[2]) is None
                    && self.3.update_error(items[3]) is None {
                    self.4.updates_to(items[4], out.4)
                } else {
                    out.4 == self.4
                }
                &&& if self.0.update_error(items[0]) is None
                    && self.1.update_error(items[1]) is None
                    && self.2.update_error(items[2]) is None
                    && self.3.update_error(items[3]) is None
                    && self.4.update_error(items[4]) is None {
                    self.5.updates_to(items[5], out.5)
                } else {
                    out.5 == self.5
                }
                &&& if self.0.update_error(items[0]) is None
                    && self.1.update_error(items[1]) is None
                    && self.2.update_error(items[2]) is None
                    && self.3.update_error(items[3]) is None
                    && self.4.update_error(items[4]) is None
                    && self.5.update_error(items[5]) is None {
                    self.6.updates_to(items[6], out.6)
                } else {
                    out.6 == self.6
                }
            }
        } else {
            out == *self
        }
    }

    fn update(&mut self, val: &Intermediate) -> (r: Result<(), Error>) {
        let items = match array_of_at_least(val, 7) {
            Ok(items) => items,
            Err(e) => {
                return Err(e);
            },
        };
        match self.0.update(&items[0]) {
            Ok(_) => {},
            Err(e) => {
                return Err(e);
            },
        }
        match self.1.update(&items[1]) {
            Ok(_) => {},
            Err(e) => {
                return Err(e);
            },
        }
        match self.2.update(&items[2]) {
            Ok(_) => {},
            Err(e) => {
                return Err(e);
            },
        }
        match self.3.update(&items[3]) {
            Ok(_) => {},
            Err(e) => {
                return Err(e);
            },
        }
        match self.4.update(&items[4]) {
            Ok(_) => {},
            Err(e) => {
                return Err(e);
            },
        }
        match self.5.update(&items[5]) {
            Ok(_) => {},
            Err(e) => {
                return Err(e);
            },
        }
        match self.6.update(&items[6]) {
            Ok(_) => {},
            Err(e) => {
                return Err(e);
            },
        }
        Ok(())
    }
}

impl<T0: RoundTrip, T1: RoundTrip, T2: RoundTrip, T3: RoundTrip, T4: RoundTrip, T5: RoundTrip, T6: RoundTrip> RoundTrip for (T0, T1, T2, T3, T4, T5, T6,) {
    open spec fn lossless(&self) -> bool {
        self.0.lossless()
            && self.1.lossless()
            && self.2.lossless()
            && self.3.lossless()
            && self.4.lossless()
            && self.5.lossless()
            && self.6.lossless()
    }

    proof fn round_trip(&self) {
        self.0.round_trip();
        self.1.round_trip();
        self.2.round_trip();
        self.3.round_trip();
        self.4.round_trip();
        self.5.round_trip();
        self.6.round_trip();
    }
}

impl<T0, T1, T2, T3, T4, T5, T6, T7> Serialize for (T0, T1, T2, T3, T4, T5, T6, T7,) where T0: Serialize, T1: Serialize, T2: Serialize, T3: Serialize, T4: Serialize, T5: Serialize, T6: Serialize, T7: Serialize {
    open spec fn serialized(&self) -> Result<Value, ErrorView> {
        match self.0.serialized() {
            Err(e) => Err(e),
            Ok(v0) => 
            match self.1.serialized() {
                Err(e) => Err(e),
                Ok(v1) => 
                match self.2.serialized() {
                    Err(e) => Err(e),
                    Ok(v2) => 
                    match self.3.serialized() {
                        Err(e) => Err(e),
                        Ok(v3) => 
                        match self.4.serialized() {
                            Err(e) => Err(e),
                            Ok(v4) => 
                            match self.5.serialized() {
                                Err(e) => Err(e),
                                Ok(v5) => 
                                match self.6.serialized() {
                                    Err(e) => Err(e),
                                    Ok(v6) => 
                                    match self.7.serialized() {
                                        Err(e) => Err(e),
                                        Ok(v7) => Ok(Value::Array(seq![v0, v1, v2, v3, v4, v5, v6, v7])),
                                    },
                                },
                            },
                        },
                    },
                },
            },
        }
    }

    fn serialize(&self) -> (r: Result<Intermediate, Error>) {
        let v0 = self.0.serialize()?;
        let v1 = self.1.serialize()?;
        let v2 = self.2.serialize()?;
        let v3 = self.3.serialize()?;
        let v4 = self.4.serialize()?;
        let v5 = self.5.serialize()?;
        let v6 = self.6.serialize()?;
        let v7 = self.7.serialize()?;
        let ghost values = seq![v0@, v1@, v2@, v3@, v4@, v5@, v6@, v7@];
        let items = vec![v0, v1, v2, v3, v4, v5, v6, v7];
        proof {
            lemma_values_of(items@);
            assert(values_of(items@) =~= values);
        }
        Ok(Intermediate::Array(items))
    }
}

impl<T0, T1, T2, T3, T4, T5, T6, T7> Deserialize for (T0, T1, T2, T3, T4, T5, T6, T7,) where T0: Deserialize, T1: Deserialize, T2: Deserialize, T3: Deserialize, T4: Deserialize, T5: Deserialize, T6: Deserialize, T7: Deserialize {
    open spec fn deserialize_error(val: Value) -> Option<ErrorView> {
        match val {
            Value::Array(items) => if items.len() < 8 {
                Some(ErrorView::InvalidValue(array_of_length(8)))
            } else {
                match T0::deserialize_error(items[0]) {
                    Some(e) => Some(e),
                    None => 
                    match T1::deserialize_error(items[1]) {
                        Some(e) => Some(e),
                        None => 
                        match T2::deserialize_error(items[2]) {
                            Some(e) => Some(e),
                            None => 
                            match T3::deserialize_error(items[3]) {
                                Some(e) => Some(e),
                                None => 
                                match T4::deserialize_error(items[4]) {
                                    Some(e) => Some(e),
                                    None => 
                                    match T5::deserialize_error(items[5]) {
                                        Some(e) => Some(e),
                                        None => 
                                        match T6::deserialize_error(items[6]) {
                                            Some(e) => Some(e),
                                            None => 
                                            T7::deserialize_error(items[7])
                                        },
                                    },
                                },
                            },
                        },
                    },
                }
            },
            _ => Some(ErrorView::InvalidValue(array_of_length(8))),
        }
    }

    open spec fn deserializes_to(val: Value, out: Self) -> bool {
        val is Array && val->Array_0.len() >= 8
            && T0::deserializes_to(val->Array_0[0], out.0)
            && T1::deserializes_to(val->Array_0[1], out.1)
            && T2::deserializes_to(val->Array_0[2], out.2)
            && T3::deserializes_to(val->Array_0[3], out.3)
            && T4::deserializes_to(val->Array_0[4], out.4)
            && T5::deserializes_to(val->Array_0[5], out.5)
            && T6::deserializes_to(val->Array_0[6], out.6)
            && T7::deserializes_to(val->Array_0[7], out.7)
    }

    fn deserialize(val: &Intermediate) -> (r: Result<Self, Error>) {
        let items = match array_of_at_least(val, 8) {
            Ok(items) => items,
            Err(e) => {
                return Err(e);
            },
        };
        let v0 = match T0::deserialize(&items[0]) {
            Ok(v) => v,
            Err(e) => {
                return Err(e);
            },
        };
        let v1 = match T1::deserialize(&items[1]) {
            Ok(v) => v,
            Err(e) => {
                return Err(e);
            },
        };
        let v2 = match T2::deserialize(&items[2]) {
            Ok(v) => v,
            Err(e) => {
                return Err(e);
            },
        };
        let v3 = match T3::deserialize(&items[3]) {
            Ok(v) => v,
            Err(e) => {
                return Err(e);
            },
        };
        let v4 = match T4::deserialize(&items[4]) {
            Ok(v) => v,
            Err(e) => {
                return Err(e);
            },
        };
        let v5 = match T5::deserialize(&items[5]) {
            Ok(v) => v,
            Err(e) => {
                return Err(e);
            },
        };
        let v6 = match T6::deserialize(&items[6]) {
            Ok(v) => v,
            Err(e) => {
                return Err(e);
            },
        };
        let v7 = match T7::deserialize(&items[7]) {
            Ok(v) => v,
            Err(e) => {
                return Err(e);
            },
        };
        Ok((v0, v1, v2, v3, v4, v5, v6, v7,))
    }
}

impl<T0, T1, T2, T3, T4, T5, T6, T7> Update for (T0, T1, T2, T3, T4, T5, T6, T7,) where T0: Update, T1: Update, T2: Update, T3: Update, T4: Update, T5: Update, T6: Update, T7: Update {
    open spec fn update_error(&self, val: Value) -> Option<ErrorView> {
        match val {
            Value::Array(items) => if items.len() < 8 {
                Some(ErrorView::InvalidValue(array_of_length(8)))
            } else {
                match self.0.update_error(items[0]) {
                    Some(e) => Some(e),
                    None => 
                    match self.1.update_error(items[1]) {
                        Some(e) => Some(e),
                        None => 
                        match self.2.update_error(items[2]) {
                            Some(e) => Some(e),
                            None => 
                            match self.3.update_error(items[3]) {
                                Some(e) => Some(e),
                                None => 
                                match self.4.update_error(items[4]) {
                                    Some(e) => Some(e),
                                    None => 
                                    match self.5.update_error(items[5]) {
                                        Some(e) => Some(e),
                                        None => 
                                        match self.6.update_error(items[6]) {
                                            Some(e) => Some(e),
                                            None => 
                                            self.7.update_error(items[7])
                                        },
                                    },
                                },
                            },
                        },
                    },
                }
            },
            _ => Some(ErrorView::InvalidValue(array_of_length(8))),
        }
    }

    open spec fn updates_to(&self, val: Value, out: Self) -> bool {
        if val is Array && val->Array_0.len() >= 8 {
            let items = val->Array_0;
            {
                &&& self.0.updates_to(items[0], out.0)
                &&& if self.0.update_error(items[0]) is None {
                    self.1.updates_to(items[1], out.1)
                } else {
                    out.1 == self.1
                }
                &&& if self.0.update_error(items[0]) is None
                    && self.1.update_error(items[1]) is None {
                    self.2.updates_to(items[2], out.2)
                } else {
                    out.2 == self.2
                }
                &&& if self.0.update_error(items[0]) is None
                    && self.1.update_error(items[1]) is None
                    && self.2.update_error(items[2]) is None {
                    self.3.updates_to(items[3], out.3)
                } else {
                    out.3 == self.3
                }
                &&& if self.0.update_error(items[0]) is None
                    && self.1.update_error(items[1]) is None
                    && self.2.update_error(items[2]) is None
                    && self.3.update_error(items[3]) is None {
                    self.4.updates_to(items[4], out.4)
                } else {
                    out.4 == self.4
                }
                &&& if self.0.update_error(items[0]) is None
                    && self.1.update_error(items[1]) is None
                    && self.2.update_error(items[2]) is None
                    && self.3.update_error(items[3]) is None
                    && self.4.update_error(items[4]) is None {
                    self.5.updates_to(items[5], out.5)
                } else {
                    out.5 == self.5
                }
                &&& if self.0.update_error(items[0]) is None
                    && self.1.update_error(items[1]) is None
                    && self.2.update_error(items[2]) is None
                    && self.3.update_error(items[3]) is None
                    && self.4.update_error(items[4]) is None
                    && self.5.update_error(items[5]) is None {
                    self.6.updates_to(items[6], out.6)
                } else {
                    out.6 == self.6
                }
                &&& if self.0.update_error(items[0]) is None
                    && self.1.update_error(items[1]) is None
                    && self.2.update_error(items[2]) is None
                    && self.3.update_error(items[3]) is None
                    && self.4.update_error(items[4]) is None
                    && self.5.update_error(items[5]) is None
                    && self.6.update_error(items[6]) is None {
                    self.7.updates_to(items[7], out.7)
                } else {
                    out.7 == self.7
                }
            }
        } else {
            out == *self
        }
    }

    fn update(&mut self, val: &Intermediate) -> (r: Result<(), Error>) {
        let items = match array_of_at_least(val, 8) {
            Ok(items) => items,
            Err(e) => {
                return Err(e);
            },
        };
        match self.0.update(&items[0]) {
            Ok(_) => {},
            Err(e) => {
                return Err(e);
            },
        }
        match self.1.update(&items[1]) {
            Ok(_) => {},
            Err(e) => {
                return Err(e);
            },
        }
        match self.2.update(&items[2]) {
            Ok(_) => {},
            Err(e) => {
                return Err(e);
            },
        }
        match self.3.update(&items[3]) {
            Ok(_) => {},
            Err(e) => {
                return Err(e);
            },
        }
        match self.4.update(&items[4]) {
            Ok(_) => {},
            Err(e) => {
                return Err(e);
            },
        }
        match self.5.update(&items[5]) {
            Ok(_) => {},
            Err(e) => {
                return Err(e);
            },
        }
        match self.6.update(&items[6]) {
            Ok(_) => {},
            Err(e) => {
                return Err(e);
            },
        }
        match self.7.update(&items[7]) {
            Ok(_) => {},
            Err(e) => {
                return Err(e);
            },
        }
        Ok(())
    }
}

impl<T0: RoundTrip, T1: RoundTrip, T2: RoundTrip, T3: RoundTrip, T4: RoundTrip, T5: RoundTrip, T6: RoundTrip, T7: RoundTrip> RoundTrip for (T0, T1, T2, T3, T4, T5, T6, T7,) {
    open spec fn lossless(&self) -> bool {
        self.0.lossless()
            && self.1.lossless()
            && self.2.lossless()
            && self.3.lossless()
            && self.4.lossless()
            && self.5.lossless()
            && self.6.lossless()
            && self.7.lossless()
    }

    proof fn round_trip(&self) {
        self.0.round_trip();
        self.1.round_trip();
        self.2.round_trip();
        self.3.round_trip();
        self.4.round_trip();
        self.5.round_trip();
        self.6.round_trip();
        self.7.round_trip();
    }
}

impl<T0, T1, T2, T3, T4, T5, T6, T7, T8> Serialize for (T0, T1, T2, T3, T4, T5, T6, T7, T8,) where T0: Serialize, T1: Serialize, T2: Serialize, T3: Serialize, T4: Serialize, T5: Serialize, T6: Serialize, T7: Serialize, T8: Serialize {
    open spec fn serialized(&self) -> Result<Value, ErrorView> {
        match self.0.serialized() {
            Err(e) => Err(e),
            Ok(v0) => 
            match self.1.serialized() {
                Err(e) => Err(e),
                Ok(v1) => 
                match self.2.serialized() {
                    Err(e) => Err(e),
                    Ok(v2) => 
                    match self.3.serialized() {
                        Err(e) => Err(e),
                        Ok(v3) => 
                        match self.4.serialized() {
                            Err(e) => Err(e),
                            Ok(v4) => 
                            match self.5.serialized() {
                                Err(e) => Err(e),
                                Ok(v5) => 
                                match self.6.serialized() {
                                    Err(e) => Err(e),
                                    Ok(v6) => 
                                    match self.7.serialized() {
                                        Err(e) => Err(e),
                                        Ok(v7) => 
                                        match self.8.serialized() {
                                            Err(e) => Err(e),
                                            Ok(v8) => Ok(Value::Array(seq![v0, v1, v2, v3, v4, v5, v6, v7, v8])),
                                        },
                                    },
                                },
                            },
                        },
                    },
                },
            },
        }
    }

    fn serialize(&self) -> (r: Result<Intermediate, Error>) {
        let v0 = self.0.serialize()?;
        let v1 = self.1.serialize()?;
        let v2 = self.2.serialize()?;
        let v3 = self.3.serialize()?;
        let v4 = self.4.serialize()?;
        let v5 = self.5.serialize()?;
        let v6 = self.6.serialize()?;
        let v7 = self.7.serialize()?;
        let v8 = self.8.serialize()?;
        let ghost values = seq![v0@, v1@, v2@, v3@, v4@, v5@, v6@, v7@, v8@];
        let items = vec![v0, v1, v2, v3, v4, v5, v6, v7, v8];
        proof {
            lemma_values_of(items@);
            assert(values_of(items@) =~= values);
        }
        Ok(Intermediate::Array(items))
    }
}

impl<T0, T1, T2, T3, T4, T5, T6, T7, T8> Deserialize for (T0, T1, T2, T3, T4, T5, T6, T7, T8,) where T0: Deserialize, T1: Deserialize, T2: Deserialize, T3: Deserialize, T4: Deserialize, T5: Deserialize, T6: Deserialize, T7: Deserialize, T8: Deserialize {
    open spec fn deserialize_error(val: Value) -> Option<ErrorView> {
        match val {
            Value::Array(items) => if items.len() < 9 {
                Some(ErrorView::InvalidValue(array_of_length(9)))
            } else {
                match T0::deserialize_error(items[0]) {
                    Some(e) => Some(e),
                    None => 
                    match T1::deserialize_error(items[1]) {
                        Some(e) => Some(e),
                        None => 
                        match T2::deserialize_error(items[2]) {
                            Some(e) => Some(e),
                            None => 
                            match T3::deserialize_error(items[3]) {
                                Some(e) => Some(e),
                                None => 
                                match T4::deserialize_error(items[4]) {
                                    Some(e) => Some(e),
                                    None => 
                                    match T5::deserialize_error(items[5]) {
                                        Some(e) => Some(e),
                                        None => 
                                        match T6::deserialize_error(items[6]) {
                                            Some(e) => Some(e),
                                            None => 
                                            match T7::deserialize_error(items[7]) {
                                                Some(e) => Some(e),
                                                None => 
                                                T8::deserialize_error(items[8])
                                            },
                                        },
                                    },
                                },
                            },
                        },
                    },
                }
            },
            _ => Some(ErrorView::InvalidValue(array_of_length(9))),
        }
    }

    open spec fn deserializes_to(val: Value, out: Self) -> bool {
        val is Array && val->Array_0.len() >= 9
            && T0::deserializes_to(val->Array_0[0], out.0)
            && T1::deserializes_to(val->Array_0[1], out.1)
            && T2::deserializes_to(val->Array_0[2], out.2)
            && T3::deserializes_to(val->Array_0[3], out.3)
            && T4::deserializes_to(val->Array_0[4], out.4)
            && T5::deserializes_to(val->Array_0[5], out.5)
            && T6::deserializes_to(val->Array_0[6], out.6)
            && T7::deserializes_to(val->Array_0[7], out.7)
            && T8::deserializes_to(val->Array_0[8], out.8)
    }

    fn deserialize(val: &Intermediate) -> (r: Result<Self, Error>) {
        let items = match array_of_at_least(val, 9) {
            Ok(items) => items,
            Err(e) => {
                return Err(e);
            },
        };
        let v0 = match T0::deserialize(&items[0]) {
            Ok(v) => v,
            Err(e) => {
                return Err(e);
            },
        };
        let v1 = match T1::deserialize(&items[1]) {
            Ok(v) => v,
            Err(e) => {
                return Err(e);
            },
        };
        let v2 = match T2::deserialize(&items[2]) {
            Ok(v) => v,
            Err(e) => {
                return Err(e);
            },
        };
        let v3 = match T3::deserialize(&items[3]) {
            Ok(v) => v,
            Err(e) => {
                return Err(e);
            },
        };
        let v4 = match T4::deserialize(&items[4]) {
            Ok(v) => v,
            Err(e) => {
                return Err(e);
            },
        };
        let v5 = match T5::deserialize(&items[5]) {
            Ok(v) => v,
            Err(e) => {
                return Err(e);
            },
        };
        let v6 = match T6::deserialize(&items[6]) {
            Ok(v) => v,
            Err(e) => {
                return Err(e);
            },
        };
        let v7 = match T7::deserialize(&items[7]) {
            Ok(v) => v,
            Err(e) => {
                return Err(e);
            },
        };
        let v8 = match T8::deserialize(&items[8]) {
            Ok(v) => v,
            Err(e) => {
                return Err(e);
            },
        };
        Ok((v0, v1, v2, v3, v4, v5, v6, v7, v8,))
    }
}

impl<T0, T1, T2, T3, T4, T5, T6, T7, T8> Update for (T0, T1, T2, T3, T4, T5, T6, T7, T8,) where T0: Update, T1: Update, T2: Update, T3: Update, T4: Update, T5: Update, T6: Update, T7: Update, T8: Update {
    open spec fn update_error(&self, val: Value) -> Option<ErrorView> {
        match val {
            Value::Array(items) => if items.len() < 9 {
                Some(ErrorView::InvalidValue(array_of_length(9)))
            } else {
                match self.0.update_error(items[0]) {
                    Some(e) => Some(e),
                    None => 
                    match self.1.update_error(items[1]) {
                        Some(e) => Some(e),
                        None => 
                        match self.2.update_error(items[2]) {
                            Some(e) => Some(e),
                            None => 
                            match self.3.update_error(items[3]) {
                                Some(e) => Some(e),
                                None => 
                                match self.4.update_error(items[4]) {
                                    Some(e) => Some(e),
                                    None => 
                                    match self.5.update_error(items[5]) {
                                        Some(e) => Some(e),
                                        None => 
                                        match self.6.update_error(items[6]) {
                                            Some(e) => Some(e),
                                            None => 
                                            match self.7.update_error(items[7]) {
                                                Some(e) => Some(e),
                                                None => 
                                                self.8.update_error(items[8])
                                            },
                                        },
                                    },
                                },
                            },
                        },
                    },
                }
            },
            _ => Some(ErrorView::InvalidValue(array_of_length(9))),
        }
    }

    open spec fn updates_to(&self, val: Value, out: Self) -> bool {
        if val is Array && val->Array_0.len() >= 9 {
            let items = val->Array_0;
            {
                &&& self.0.updates_to(items[0], out.0)
                &&& if self.0.update_error(items[0]) is None {
                    self.1.updates_to(items[1], out.1)
                } else {
                    out.1 == self.1
                }
                &&& if self.0.update_error(items[0]) is None
                    && self.1.update_error(items[1]) is None {
                    self.2.updates_to(items[2], out.2)
                } else {
                    out.2 == self.2
                }
                &&& if self.0.update_error(items[0]) is None
                    && self.1.update_error(items[1]) is None
                    && self.2.update_error(items[2]) is None {
                    self.3.updates_to(items[3], out.3)
                } else {
                    out.3 == self.3
                }
                &&& if self.0.update_error(items[0]) is None
                    && self.1.update_error(items[1]) is None
                    && self.2.update_error(items[2]) is None
                    && self.3.update_error(items[3]) is None {
                    self.4.updates_to(items[4], out.4)
                } else {
                    out.4 == self.4
                }
                &&& if self.0.update_error(items[0]) is None
                    && self.1.update_error(items[1]) is None
                    && self.2.update_error(items[2]) is None
                    && self.3.update_error(items[3]) is None
                    && self.4.update_error(items[4]) is None {
                    self.5.updates_to(items[5], out.5)
                } else {
                    out.5 == self.5
                }
                &&& if self.0.update_error(items[0]) is None
                    && self.1.update_error(items[1]) is None
                    && self.2.update_error(items[2]) is None
                    && self.3.update_error(items[3]) is None
                    && self.4.update_error(items[4]) is None
                    && self.5.update_error(items[5]) is None {
                    self.6.updates_to(items[6], out.6)
                } else {
                    out.6 == self.6
                }
                &&& if self.0.update_error(items[0]) is None
                    && self.1.update_error(items[1]) is None
                    && self.2.update_error(items[2]) is None
                    && self.3.update_error(items[3]) is None
                    && self.4.update_error(items[4]) is None
                    && self.5.update_error(items[5]) is None
                    && self.6.update_error(items[6]) is None {
                    self.7.updates_to(items[7], out.7)
                } else {
                    out.7 == self.7
                }
                &&& if self.0.update_error(items[0]) is None
                    && self.1.update_error(items[1]) is None
                    && self.2.update_error(items[2]) is None
                    && self.3.update_error(items[3]) is None
                    && self.4.update_error(items[4]) is None
                    && self.5.update_error(items[5]) is None
                    && self.6.update_error(items[6]) is None
                    && self.7.update_error(items[7]) is None {
                    self.8.updates_to(items[8], out.8)
                } else {
                    out.8 == self.8
                }
            }
        } else {
            out == *self
        }
    }

    fn update(&mut self, val: &Intermediate) -> (r: Result<(), Error>) {
        let items = match array_of_at_least(val, 9) {
            Ok(items) => items,
            Err(e) => {
                return Err(e);
            },
        };
        match self.0.update(&items[0]) {
            Ok(_) => {},
            Err(e) => {
                return Err(e);
            },
        }
        match self.1.update(&items[1]) {
            Ok(_) => {},
            Err(e) => {
                return Err(e);
            },
        }
        match self.2.update(&items[2]) {
            Ok(_) => {},
            Err(e) => {
                return Err(e);
            },
        }
        match self.3.update(&items[3]) {
            Ok(_) => {},
            Err(e) => {
                return Err(e);
            },
        }
        match self.4.update(&items[4]) {
            Ok(_) => {},
            Err(e) => {
                return Err(e);
            },
        }
        match self.5.update(&items[5]) {
            Ok(_) => {},
            Err(e) => {
                return Err(e);
            },
        }
        match self.6.update(&items[6]) {
            Ok(_) => {},
            Err(e) => {
                return Err(e);
            },
        }
        match self.7.update(&items[7]) {
            Ok(_) => {},
            Err(e) => {
                return Err(e);
            },
        }
        match self.8.update(&items[8]) {
            Ok(_) => {},
            Err(e) => {
                return Err(e);
            },
        }
        Ok(())
    }
}

impl<T0: RoundTrip, T1: RoundTrip, T2: RoundTrip, T3: RoundTrip, T4: RoundTrip, T5: RoundTrip, T6: RoundTrip, T7: RoundTrip, T8: RoundTrip> RoundTrip for (T0, T1, T2, T3, T4, T5, T6, T7, T8,) {
    open spec fn lossless(&self) -> bool {
        self.0.lossless()
            && self.1.lossless()
            && self.2.lossless()
            && self.3.lossless()
            && self.4.lossless()
            && self.5.lossless()
            && self.6.lossless()
            && self.7.lossless()
            && self.8.lossless()
    }

    proof fn round_trip(&self) {
        self.0.round_trip();
        self.1.round_trip();
        self.2.round_trip();
        self.3.round_trip();
        self.4.round_trip();
        self.5.round_trip();
        self.6.round_trip();
        self.7.round_trip();
        self.8.round_trip();
    }
}

impl<T0, T1, T2, T3, T4, T5, T6, T7, T8, T9> Serialize for (T0, T1, T2, T3, T4, T5, T6, T7, T8, T9,) where T0: Serialize, T1: Serialize, T2: Serialize, T3: Serialize, T4: Serialize, T5: Serialize, T6: Serialize, T7: Serialize, T8: Serialize, T9: Serialize {
    open spec fn serialized(&self) -> Result<Value, ErrorView> {
        match self.0.serialized() {
            Err(e) => Err(e),
            Ok(v0) => 
            match self.1.serialized() {
                Err(e) => Err(e),
                Ok(v1) => 
                match self.2.serialized() {
                    Err(e) => Err(e),
                    Ok(v2) => 
                    match self.3.serialized() {
                        Err(e) => Err(e),
                        Ok(v3) => 
                        match self.4.serialized() {
                            Err(e) => Err(e),
                            Ok(v4) => 
                            match self.5.serialized() {
                                Err(e) => Err(e),
                                Ok(v5) => 
                                match self.6.serialized() {
                                    Err(e) => Err(e),
                                    Ok(v6) => 
                                    match self.7.serialized() {
                                        Err(e) => Err(e),
                                        Ok(v7) => 
                                        match self.8.serialized() {
                                            Err(e) => Err(e),
                                            Ok(v8) => 
                                            match self.9.serialized() {
                                                Err(e) => Err(e),
                                                Ok(v9) => Ok(Value::Array(seq![v0, v1, v2, v3, v4, v5, v6, v7, v8, v9])),
                                            },
                                        },
                                    },
                                },
                            },
                        },
                    },
                },
            },
        }
    }

    fn serialize(&self) -> (r: Result<Intermediate, Error>) {
        let v0 = self.0.serialize()?;
        let v1 = self.1.serialize()?;
        let v2 = self.2.serialize()?;
        let v3 = self.3.serialize()?;
        let v4 = self.4.serialize()?;
        let v5 = self.5.serialize()?;
        let v6 = self.6.serialize()?;
        let v7 = self.7.serialize()?;
        let v8 = self.8.serialize()?;
        let v9 = self.9.serialize()?;
        let ghost values = seq![v0@, v1@, v2@, v3@, v4@, v5@, v6@, v7@, v8@, v9@];
        let items = vec![v0, v1, v2, v3, v4, v5, v6, v7, v8, v9];
        proof {
            lemma_values_of(items@);
            assert(values_of(items@) =~= values);
        }
        Ok(Intermediate::Array(items))
    }
}

impl<T0, T1, T2, T3, T4, T5, T6, T7, T8, T9> Deserialize for (T0, T1, T2, T3, T4, T5, T6, T7, T8, T9,) where T0: Deserialize, T1: Deserialize, T2: Deserialize, T3: Deserialize, T4: Deserialize, T5: Deserialize, T6: Deserialize, T7: Deserialize, T8: Deserialize, T9: Deserialize {
    open spec fn deserialize_error(val: Value) -> Option<ErrorView> {
        match val {
            Value::Array(items) => if items.len() < 10 {
                Some(ErrorView::InvalidValue(array_of_length(10)))
            } else {
                match T0::deserialize_error(items[0]) {
                    Some(e) => Some(e),
                    None => 
                    match T1::deserialize_error(items[1]) {
                        Some(e) => Some(e),
                        None => 
                        match T2::deserialize_error(items[2]) {
                            Some(e) => Some(e),
                            None => 
                            match T3::deserialize_error(items[3]) {
                                Some(e) => Some(e),
                                None => 
                                match T4::deserialize_error(items[4]) {
                                    Some(e) => Some(e),
                                    None => 
                                    match T5::deserialize_error(items[5]) {
                                        Some(e) => Some(e),
                                        None => 
                                        match T6::deserialize_error(items[6]) {
                                            Some(e) => Some(e),
                                            None => 
                                            match T7::deserialize_error(items[7]) {
                                                Some(e) => Some(e),
                                                None => 
                                                match T8::deserialize_error(items[8]) {
                                                    Some(e) => Some(e),
                                                    None => 
                                                    T9::deserialize_error(items[9])
                                                },
                                            },
                                        },
                                    },
                                },
                            },
                        },
                    },
                }
            },
            _ => Some(ErrorView::InvalidValue(array_of_length(10))),
        }
    }

    open spec fn deserializes_to(val: Value, out: Self) -> bool {
        val is Array && val->Array_0.len() >= 10
            && T0::deserializes_to(val->Array_0[0], out.0)
            && T1::deserializes_to(val->Array_0[1], out.1)
            && T2::deserializes_to(val->Array_0[2], out.2)
            && T3::deserializes_to(val->Array_0[3], out.3)
            && T4::deserializes_to(val->Array_0[4], out.4)
            && T5::deserializes_to(val->Array_0[5], out.5)
            && T6::deserializes_to(val->Array_0[6], out.6)
            && T7::deserializes_to(val->Array_0[7], out.7)
            && T8::deserializes_to(val->Array_0[8], out.8)
            && T9::deserializes_to(val->Array_0[9], out.9)
    }

    fn deserialize(val: &Intermediate) -> (r: Result<Self, Error>) {
        let items = match array_of_at_least(val, 10) {
            Ok(items) => items,
            Err(e) => {
                return Err(e);
            },
        };
        let v0 = match T0::deserialize(&items[0]) {
            Ok(v) => v,
            Err(e) => {
                return Err(e);
            },
        };
        let v1 = match T1::deserialize(&items[1]) {
            Ok(v) => v,
            Err(e) => {
                return Err(e);
            },
        };
        let v2 = match T2::deserialize(&items[2]) {
            Ok(v) => v,
            Err(e) => {
                return Err(e);
            },
        };
        let v3 = match T3::deserialize(&items[3]) {
            Ok(v) => v,
            Err(e) => {
                return Err(e);
            },
        };
        let v4 = match T4::deserialize(&items[4]) {
            Ok(v) => v,
            Err(e) => {
                return Err(e);
            },
        };
        let v5 = match T5::deserialize(&items[5]) {
            Ok(v) => v,
            Err(e) => {
                return Err(e);
            },
        };
        let v6 = match T6::deserialize(&items[6]) {
            Ok(v) => v,
            Err(e) => {
                return Err(e);
            },
        };
        let v7 = match T7::deserialize(&items[7]) {
            Ok(v) => v,
            Err(e) => {
                return Err(e);
            },
        };
        let v8 = match T8::deserialize(&items[8]) {
            Ok(v) => v,
            Err(e) => {
                return Err(e);
            },
        };
        let v9 = match T9::deserialize(&items[9]) {
            Ok(v) => v,
            Err(e) => {
                return Err(e);
            },
        };
        Ok((v0, v1, v2, v3, v4, v5, v6, v7, v8, v9,))
    }
}

impl<T0, T1, T2, T3, T4, T5, T6, T7, T8, T9> Update for (T0, T1, T2, T3, T4, T5, T6, T7, T8, T9,) where T0: Update, T1: Update, T2: Update, T3: Update, T4: Update, T5: Update, T6: Update, T7: Update, T8: Update, T9: Update {
    open spec fn update_error(&self, val: Value) -> Option<ErrorView> {
        match val {
            Value::Array(items) => if items.len() < 10 {
                Some(ErrorView::InvalidValue(array_of_length(10)))
            } else {
                match self.0.update_error(items[0]) {
                    Some(e) => Some(e),
                    None => 
                    match self.1.update_error(items[1]) {
                        Some(e) => Some(e),
                        None => 
                        match self.2.update_error(items[2]) {
                            Some(e) => Some(e),
                            None => 
                            match self.3.update_error(items[3]) {
                                Some(e) => Some(e),
                                None => 
                                match self.4.update_error(items[4]) {
                                    Some(e) => Some(e),
                                    None => 
                                    match self.5.update_error(items[5]) {
                                        Some(e) => Some(e),
                                        None => 
                                        match self.6.update_error(items[6]) {
                                            Some(e) => Some(e),
                                            None => 
                                            match self.7.update_error(items[7]) {
                                                Some(e) => Some(e),
                                                None => 
                                                match self.8.update_error(items[8]) {
                                                    Some(e) => Some(e),
                                                    None => 
                                                    self.9.update_error(items[9])
                                                },
                                            },
                                        },
                                    },
                                },
                            },
                        },
                    },
                }
            },
            _ => Some(ErrorView::InvalidValue(array_of_length(10))),
        }
    }

    open spec fn updates_to(&self, val: Value, out: Self) -> bool {
        if val is Array && val->Array_0.len() >= 10 {
            let items = val->Array_0;
            {
                &&& self.0.updates_to(items[0], out.0)
                &&& if self.0.update_error(items[0]) is None {
                    self.1.updates_to(items[1], out.1)
                } else {
                    out.1 == self.1
                }
                &&& if self.0.update_error(items[0]) is None
                    && self.1.update_error(items[1]) is None {
                    self.2.updates_to(items[2], out.2)
                } else {
                    out.2 == self.2
                }
                &&& if self.0.update_error(items[0]) is None
                    && self.1.update_error(items[1]) is None
                    && self.2.update_error(items[2]) is None {
                    self.3.updates_to(items[3], out.3)
                } else {
                    out.3 == self.3
                }
                &&& if self.0.update_error(items[0]) is None
                    && self.1.update_error(items[1]) is None
                    && self.2.update_error(items[2]) is None
                    && self.3.update_error(items[3]) is None {
                    self.4.updates_to(items[4], out.4)
                } else {
                    out.4 == self.4
                }
                &&& if self.0.update_error(items[0]) is None
                    && self.1.update_error(items[1]) is None
                    && self.2.update_error(items[2]) is None
                    && self.3.update_error(items[3]) is None
                    && self.4.update_error(items[4]) is None {
                    self.5.updates_to(items[5], out.5)
                } else {
                    out.5 == self.5
                }
                &&& if self.0.update_error(items[0]) is None
                    && self.1.update_error(items[1]) is None
                    && self.2.update_error(items[2]) is None
                    && self.3.update_error(items[3]) is None
                    && self.4.update_error(items[4]) is None
                    && self.5.update_error(items[5]) is None {
                    self.6.updates_to(items[6], out.6)
                } else {
                    out.6 == self.6
                }
                &&& if self.0.update_error(items[0]) is None
                    && self.1.update_error(items[1]) is None
                    && self.2.update_error(items[2]) is None
                    && self.3.update_error(items[3]) is None
                    && self.4.update_error(items[4]) is None
                    && self.5.update_error(items[5]) is None
                    && self.6.update_error(items[6]) is None {
                    self.7.updates_to(items[7], out.7)
                } else {
                    out.7 == self.7
                }
                &&& if self.0.update_error(items[0]) is None
                    && self.1.update_error(items[1]) is None
                    && self.2.update_error(items[2]) is None
                    && self.3.update_error(items[3]) is None
                    && self.4.update_error(items[4]) is None
                    && self.5.update_error(items[5]) is None
                    && self.6.update_error(items[6]) is None
                    && self.7.update_error(items[7]) is None {
                    self.8.updates_to(items[8], out.8)
                } else {
                    out.8 == self.8
                }
                &&& if self.0.update_error(items[0]) is None
                    && self.1.update_error(items[1]) is None
                    && self.2.update_error(items[2]) is None
                    && self.3.update_error(items[3]) is None
                    && self.4.update_error(items[4]) is None
                    && self.5.update_error(items[5]) is None
                    && self.6.update_error(items[6]) is None
                    && self.7.update_error(items[7]) is None
                    && self.8.update_error(items[8]) is None {
                    self.9.updates_to(items[9], out.9)
                } else {
                    out.9 == self.9
                }
            }
        } else {
            out == *self
        }
    }

    fn update(&mut self, val: &Intermediate) -> (r: Result<(), Error>) {
        let items = match array_of_at_least(val, 10) {
            Ok(items) => items,
            Err(e) => {
                return Err(e);
            },
        };
        match self.0.update(&items[0]) {
            Ok(_) => {},
            Err(e) => {
                return Err(e);
            },
        }
        match self.1.update(&items[1]) {
            Ok(_) => {},
            Err(e) => {
                return Err(e);
            },
        }
        match self.2.update(&items[2]) {
            Ok(_) => {},
            Err(e) => {
                return Err(e);
            },
        }
        match self.3.update(&items[3]) {
            Ok(_) => {},
            Err(e) => {
                return Err(e);
            },
        }
        match self.4.update(&items[4]) {
            Ok(_) => {},
            Err(e) => {
                return Err(e);
            },
        }
        match self.5.update(&items[5]) {
            Ok(_) => {},
            Err(e) => {
                return Err(e);
            },
        }
        match self.6.update(&items[6]) {
            Ok(_) => {},
            Err(e) => {
                return Err(e);
            },
        }
        match self.7.update(&items[7]) {
            Ok(_) => {},
            Err(e) => {
                return Err(e);
            },
        }
        match self.8.update(&items[8]) {
            Ok(_) => {},
            Err(e) => {
                return Err(e);
            },
        }
        match self.9.update(&items[9]) {
            Ok(_) => {},
            Err(e) => {
                return Err(e);
            },
        }
        Ok(())
    }
}

impl<T0: RoundTrip, T1: RoundTrip, T2: RoundTrip, T3: RoundTrip, T4: RoundTrip, T5: RoundTrip, T6: RoundTrip, T7: RoundTrip, T8: RoundTrip, T9: RoundTrip> RoundTrip for (T0, T1, T2, T3, T4, T5, T6, T7, T8, T9,) {
    open spec fn lossless(&self) -> bool {
        self.0.lossless()
            && self.1.lossless()
            && self.2.lossless()
            && self.3.lossless()
            && self.4.lossless()
            && self.5.lossless()
            && self.6.lossless()
            && self.7.lossless()
            && self.8.lossless()
            && self.9.lossless()
    }

    proof fn round_trip(&self) {
        self.0.round_trip();
        self.1.round_trip();
        self.2.round_trip();
        self.3.round_trip();
        self.4.round_trip();
        self.5.round_trip();
        self.6.round_trip();
        self.7.round_trip();
        self.8.round_trip();
        self.9.round_trip();
    }
}

impl<T0, T1, T2, T3, T4, T5, T6, T7, T8, T9, T10> Serialize for (T0, T1, T2, T3, T4, T5, T6, T7, T8, T9, T10,) where T0: Serialize, T1: Serialize, T2: Serialize, T3: Serialize, T4: Serialize, T5: Serialize, T6: Serialize, T7: Serialize, T8: Serialize, T9: Serialize, T10: Serialize {
    open spec fn serialized(&self) -> Result<Value, ErrorView> {
        match self.0.serialized() {
            Err(e) => Err(e),
            Ok(v0) => 
            match self.1.serialized() {
                Err(e) => Err(e),
                Ok(v1) => 
                match self.2.serialized() {
                    Err(e) => Err(e),
                    Ok(v2) => 
                    match self.3.serialized() {
                        Err(e) => Err(e),
                        Ok(v3) => 
                        match self.4.serialized() {
                            Err(e) => Err(e),
                            Ok(v4) => 
                            match self.5.serialized() {
                                Err(e) => Err(e),
                                Ok(v5) => 
                                match self.6.serialized() {
                                    Err(e) => Err(e),
                                    Ok(v6) => 
                                    match self.7.serialized() {
                                        Err(e) => Err(e),
                                        Ok(v7) => 
                                        match self.8.serialized() {
                                            Err(e) => Err(e),
                                            Ok(v8) => 
                                            match self.9.serialized() {
                                                Err(e) => Err(e),
                                                Ok(v9) => 
                                                match self.10.serialized() {
                                                    Err(e) => Err(e),
                                                    Ok(v10) => Ok(Value::Array(seq![v0, v1, v2, v3, v4, v5, v6, v7, v8, v9, v10])),
                                                },
                                            },
                                        },
                                    },
                                },
                            },
                        },
                    },
                },
            },
        }
    }

    fn serialize(&self) -> (r: Result<Intermediate, Error>) {
        let v0 = self.0.serialize()?;
        let v1 = self.1.serialize()?;
        let v2 = self.2.serialize()?;
        let v3 = self.3.serialize()?;
        let v4 = self.4.serialize()?;
        let v5 = self.5.serialize()?;
        let v6 = self.6.serialize()?;
        let v7 = self.7.serialize()?;
        let v8 = self.8.serialize()?;
        let v9 = self.9.serialize()?;
        let v10 = self.10.serialize()?;
        let ghost values = seq![v0@, v1@, v2@, v3@, v4@, v5@, v6@, v7@, v8@, v9@, v10@];
        let items = vec![v0, v1, v2, v3, v4, v5, v6, v7, v8, v9, v10];
        proof {
            lemma_values_of(items@);
            assert(values_of(items@) =~= values);
        }
        Ok(Intermediate::Array(items))
    }
}

impl<T0, T1, T2, T3, T4, T5, T6, T7, T8, T9, T10> Deserialize for (T0, T1, T2, T3, T4, T5, T6, T7, T8, T9, T10,) where T0: Deserialize, T1: Deserialize, T2: Deserialize, T3: Deserialize, T4: Deserialize, T5: Deserialize, T6: Deserialize, T7: Deserialize, T8: Deserialize, T9: Deserialize, T10: Deserialize {
    open spec fn deserialize_error(val: Value) -> Option<ErrorView> {
        match val {
            Value::Array(items) => if items.len() < 11 {
                Some(ErrorView::InvalidValue(array_of_length(11)))
            } else {
                match T0::deserialize_error(items[0]) {
                    Some(e) => Some(e),
                    None => 
                    match T1::deserialize_error(items[1]) {
                        Some(e) => Some(e),
                        None => 
                        match T2::deserialize_error(items[2]) {
                            Some(e) => Some(e),
                            None => 
                            match T3::deserialize_error(items[3]) {
                                Some(e) => Some(e),
                                None => 
                                match T4::deserialize_error(items[4]) {
                                    Some(e) => Some(e),
                                    None => 
                                    match T5::deserialize_error(items[5]) {
                                        Some(e) => Some(e),
                                        None => 
                                        match T6::deserialize_error(items[6]) {
                                            Some(e) => Some(e),
                                            None => 
                                            match T7::deserialize_error(items[7]) {
                                                Some(e) => Some(e),
                                                None => 
                                                match T8::deserialize_error(items[8]) {
                                                    Some(e) => Some(e),
                                                    None => 
                                                    match T9::deserialize_error(items[9]) {
                                                        Some(e) => Some(e),
                                                        None => 
                                                        T10::deserialize_error(items[10])
                                                    },
                                                },
                                            },
                                        },
                                    },
                                },
                            },
                        },
                    },
                }
            },
            _ => Some(ErrorView::InvalidValue(array_of_length(11))),
        }
    }

    open spec fn deserializes_to(val: Value, out: Self) -> bool {
        val is Array && val->Array_0.len() >= 11
            && T0::deserializes_to(val->Array_0[0], out.0)
            && T1::deserializes_to(val->Array_0[1], out.1)
            && T2::deserializes_to(val->Array_0[2], out.2)
            && T3::deserializes_to(val->Array_0[3], out.3)
            && T4::deserializes_to(val->Array_0[4], out.4)
            && T5::deserializes_to(val->Array_0[5], out.5)
            && T6::deserializes_to(val->Array_0[6], out.6)
            && T7::deserializes_to(val->Array_0[7], out.7)
            && T8::deserializes_to(val->Array_0[8], out.8)
            && T9::deserializes_to(val->Array_0[9], out.9)
            && T10::deserializes_to(val->Array_0[10], out.10)
    }

    fn deserialize(val: &Intermediate) -> (r: Result<Self, Error>) {
        let items = match array_of_at_least(val, 11) {
            Ok(items) => items,
            Err(e) => {
                return Err(e);
            },
        };
        let v0 = match T0::deserialize(&items[0]) {
            Ok(v) => v,
            Err(e) => {
                return Err(e);
            },
        };
        let v1 = match T1::deserialize(&items[1]) {
            Ok(v) => v,
            Err(e) => {
                return Err(e);
            },
        };
        let v2 = match T2::deserialize(&items[2]) {
            Ok(v) => v,
            Err(e) => {
                return Err(e);
            },
        };
        let v3 = match T3::deserialize(&items[3]) {
            Ok(v) => v,
            Err(e) => {
                return Err(e);
            },
        };
        let v4 = match T4::deserialize(&items[4]) {
            Ok(v) => v,
            Err(e) => {
                return Err(e);
            },
        };
        let v5 = match T5::deserialize(&items[5]) {
            Ok(v) => v,
            Err(e) => {
                return Err(e);
            },
        };
        let v6 = match T6::deserialize(&items[6]) {
            Ok(v) => v,
            Err(e) => {
                return Err(e);
            },
        };
        let v7 = match T7::deserialize(&items[7]) {
            Ok(v) => v,
            Err(e) => {
                return Err(e);
            },
        };
        let v8 = match T8::deserialize(&items[8]) {
            Ok(v) => v,
            Err(e) => {
                return Err(e);
            },
        };
        let v9 = match T9::deserialize(&items[9]) {
            Ok(v) => v,
            Err(e) => {
                return Err(e);
            },
        };
        let v10 = match T10::deserialize(&items[10]) {
            Ok(v) => v,
            Err(e) => {
                return Err(e);
            },
        };
        Ok((v0, v1, v2, v3, v4, v5, v6, v7, v8, v9, v10,))
    }
}

impl<T0, T1, T2, T3, T4, T5, T6, T7, T8, T9, T10> Update for (T0, T1, T2, T3, T4, T5, T6, T7, T8, T9, T10,) where T0: Update, T1: Update, T2: Update, T3: Update, T4: Update, T5: Update, T6: Update, T7: Update, T8: Update, T9: Update, T10: Update {
    open spec fn update_error(&self, val: Value) -> Option<ErrorView> {
        match val {
            Value::Array(items) => if items.len() < 11 {
                Some(ErrorView::InvalidValue(array_of_length(11)))
            } else {
                match self.0.update_error(items[0]) {
                    Some(e) => Some(e),
                    None => 
                    match self.1.update_error(items[1]) {
                        Some(e) => Some(e),
                        None => 
                        match self.2.update_error(items[2]) {
                            Some(e) => Some(e),
                            None => 
                            match self.3.update_error(items[3]) {
                                Some(e) => Some(e),
                                None => 
                                match self.4.update_error(items[4]) {
                                    Some(e) => Some(e),
                                    None => 
                                    match self.5.update_error(items[5]) {
                                        Some(e) => Some(e),
                                        None => 
                                        match self.6.update_error(items[6]) {
                                            Some(e) => Some(e),
                                            None => 
                                            match self.7.update_error(items[7]) {
                                                Some(e) => Some(e),
                                                None => 
                                                match self.8.update_error(items[8]) {
                                                    Some(e) => Some(e),
                                                    None => 
                                                    match self.9.update_error(items[9]) {
                                                        Some(e) => Some(e),
                                                        None => 
                                                        self.10.update_error(items[10])
                                                    },
                                                },
                                            },
                                        },
                                    },
                                },
                            },
                        },
                    },
                }
            },
            _ => Some(ErrorView::InvalidValue(array_of_length(11))),
        }
    }

    open spec fn updates_to(&self, val: Value, out: Self) -> bool {
        if val is Array && val->Array_0.len() >= 11 {
            let items = val->Array_0;
            {
                &&& self.0.updates_to(items[0], out.0)
                &&& if self.0.update_error(items[0]) is None {
                    self.1.updates_to(items[1], out.1)
                } else {
                    out.1 == self.1
                }
                &&& if self.0.update_error(items[0]) is None
                    && self.1.update_error(items[1]) is None {
                    self.2.updates_to(items[2], out.2)
                } else {
                    out.2 == self.2
                }
                &&& if self.0.update_error(items[0]) is None
                    && self.1.update_error(items[1]) is None
                    && self.2.update_error(items[2]) is None {
                    self.3.updates_to(items[3], out.3)
                } else {
                    out.3 == self.3
                }
                &&& if self.0.update_error(items[0]) is None
                    && self.1.update_error(items[1]) is None
                    && self.2.update_error(items[2]) is None
                    && self.3.update_error(items[3]) is None {
                    self.4.updates_to(items[4], out.4)
                } else {
                    out.4 == self.4
                }
                &&& if self.0.update_error(items[0]) is None
                    && self.1.update_error(items[1]) is None
                    && self.2.update_error(items[2]) is None
                    && self.3.update_error(items[3]) is None
                    && self.4.update_error(items[4]) is None {
                    self.5.updates_to(items[5], out.5)
                } else {
                    out.5 == self.5
                }
                &&& if self.0.update_error(items[0]) is None
                    && self.1.update_error(items[1]) is None
                    && self.2.update_error(items[2]) is None
                    && self.3.update_error(items[3]) is None
                    && self.4.update_error(items[4]) is None
                    && self.5.update_error(items[5]) is None {
                    self.6.updates_to(items[6], out.6)
                } else {
                    out.6 == self.6
                }
                &&& if self.0.update_error(items[0]) is None
                    && self.1.update_error(items[1]) is None
                    && self.2.update_error(items[2]) is None
                    && self.3.update_error(items[3]) is None
                    && self.4.update_error(items[4]) is None
                    && self.5.update_error(items[5]) is None
                    && self.6.update_error(items[6]) is None {
                    self.7.updates_to(items[7], out.7)
                } else {
                    out.7 == self.7
                }
                &&& if self.0.update_error(items[0]) is None
                    && self.1.update_error(items[1]) is None
                    && self.2.update_error(items[2]) is None
                    && self.3.update_error(items[3]) is None
                    && self.4.update_error(items[4]) is None
                    && self.5.update_error(items[5]) is None
                    && self.6.update_error(items[6]) is None
                    && self.7.update_error(items[7]) is None {
                    self.8.updates_to(items[8], out.8)
                } else {
                    out.8 == self.8
                }
                &&& if self.0.update_error(items[0]) is None
                    && self.1.update_error(items[1]) is None
                    && self.2.update_error(items[2]) is None
                    && self.3.update_error(items[3]) is None
                    && self.4.update_error(items[4]) is None
                    && self.5.update_error(items[5]) is None
                    && self.6.update_error(items[6]) is None
                    && self.7.update_error(items[7]) is None
                    && self.8.update_error(items[8]) is None {
                    self.9.updates_to(items[9], out.9)
                } else {
                    out.9 == self.9
                }
                &&& if self.0.update_error(items[0]) is None
                    && self.1.update_error(items[1]) is None
                    && self.2.update_error(items[2]) is None
                    && self.3.update_error(items[3]) is None
                    && self.4.update_error(items[4]) is None
                    && self.5.update_error(items[5]) is None
                    && self.6.update_error(items[6]) is None
                    && self.7.update_error(items[7]) is None
                    && self.8.update_error(items[8]) is None
                    && self.9.update_error(items[9]) is None {
                    self.10.updates_to(items[10], out.10)
                } else {
                    out.10 == self.10
                }
            }
        } else {
            out == *self
        }
    }

    fn update(&mut self, val: &Intermediate) -> (r: Result<(), Error>) {
        let items = match array_of_at_least(val, 11) {
            Ok(items) => items,
            Err(e) => {
                return Err(e);
            },
        };
        match self.0.update(&items[0]) {
            Ok(_) => {},
            Err(e) => {
                return Err(e);
            },
        }
        match self.1.update(&items[1]) {
            Ok(_) => {},
            Err(e) => {
                return Err(e);
            },
        }
        match self.2.update(&items[2]) {
            Ok(_) => {},
            Err(e) => {
                return Err(e);
            },
        }
        match self.3.update(&items[3]) {
            Ok(_) => {},
            Err(e) => {
                return Err(e);
            },
        }
        match self.4.update(&items[4]) {
            Ok(_) => {},
            Err(e) => {
                return Err(e);
            },
        }
        match self.5.update(&items[5]) {
            Ok(_) => {},
            Err(e) => {
                return Err(e);
            },
        }
        match self.6.update(&items[6]) {
            Ok(_) => {},
            Err(e) => {
                return Err(e);
            },
        }
        match self.7.update(&items[7]) {
            Ok(_) => {},
            Err(e) => {
                return Err(e);
            },
        }
        match self.8.update(&items[8]) {
            Ok(_) => {},
            Err(e) => {
                return Err(e);
            },
        }
        match self.9.update(&items[9]) {
            Ok(_) => {},
            Err(e) => {
                return Err(e);
            },
        }
        match self.10.update(&items[10]) {
            Ok(_) => {},
            Err(e) => {
                return Err(e);
            },
        }
        Ok(())
    }
}

impl<T0: RoundTrip, T1: RoundTrip, T2: RoundTrip, T3: RoundTrip, T4: RoundTrip, T5: RoundTrip, T6: RoundTrip, T7: RoundTrip, T8: RoundTrip, T9: RoundTrip, T10: RoundTrip> RoundTrip for (T0, T1, T2, T3, T4, T5, T6, T7, T8, T9, T10,) {
    open spec fn lossless(&self) -> bool {
        self.0.lossless()
            && self.1.lossless()
            && self.2.lossless()
            && self.3.lossless()
            && self.4.lossless()
            && self.5.lossless()
            && self.6.lossless()
            && self.7.lossless()
            && self.8.lossless()
            && self.9.lossless()
            && self.10.lossless()
    }

    proof fn round_trip(&self) {
        self.0.round_trip();
        self.1.round_trip();
        self.2.round_trip();
        self.3.round_trip();
        self.4.round_trip();
        self.5.round_trip();
        self.6.round_trip();
        self.7.round_trip();
        self.8.round_trip();
        self.9.round_trip();
        self.10.round_trip();
    }
}

impl<T0, T1, T2, T3, T4, T5, T6, T7, T8, T9, T10, T11> Serialize for (T0, T1, T2, T3, T4, T5, T6, T7, T8, T9, T10, T11,) where T0: Serialize, T1: Serialize, T2: Serialize, T3: Serialize, T4: Serialize, T5: Serialize, T6: Serialize, T7: Serialize, T8: Serialize, T9: Serialize, T10: Serialize, T11: Serialize {
    open spec fn serialized(&self) -> Result<Value, ErrorView> {
        match self.0.serialized() {
            Err(e) => Err(e),
            Ok(v0) => 
            match self.1.serialized() {
                Err(e) => Err(e),
                Ok(v1) => 
                match self.2.serialized() {
                    Err(e) => Err(e),
                    Ok(v2) => 
                    match self.3.serialized() {
                        Err(e) => Err(e),
                        Ok(v3) => 
                        match self.4.serialized() {
                            Err(e) => Err(e),
                            Ok(v4) => 
                            match self.5.serialized() {
                                Err(e) => Err(e),
                                Ok(v5) => 
                                match self.6.serialized() {
                                    Err(e) => Err(e),
                                    Ok(v6) => 
                                    match self.7.serialized() {
                                        Err(e) => Err(e),
                                        Ok(v7) => 
                                        match self.8.serialized() {
                                            Err(e) => Err(e),
                                            Ok(v8) => 
                                            match self.9.serialized() {
                                                Err(e) => Err(e),
                                                Ok(v9) => 
                                                match self.10.serialized() {
                                                    Err(e) => Err(e),
                                                    Ok(v10) => 
                                                    match self.11.serialized() {
                                                        Err(e) => Err(e),
                                                        Ok(v11) => Ok(Value::Array(seq![v0, v1, v2, v3, v4, v5, v6, v7, v8, v9, v10, v11])),
                                                    },
                                                },
                                            },
                                        },
                                    },
                                },
                            },
                        },
                    },
                },
            },
        }
    }

    fn serialize(&self) -> (r: Result<Intermediate, Error>) {
        let v0 = self.0.serialize()?;
        let v1 = self.1.serialize()?;
        let v2 = self.2.serialize()?;
        let v3 = self.3.serialize()?;
        let v4 = self.4.serialize()?;
        let v5 = self.5.serialize()?;
        let v6 = self.6.serialize()?;
        let v7 = self.7.serialize()?;
        let v8 = self.8.serialize()?;
        let v9 = self.9.serialize()?;
        let v10 = self.10.serialize()?;
        let v11 = self.11.serialize()?;
        let ghost values = seq![v0@, v1@, v2@, v3@, v4@, v5@, v6@, v7@, v8@, v9@, v10@, v11@];
        let items = vec![v0, v1, v2, v3, v4, v5, v6, v7, v8, v9, v10, v11];
        proof {
            lemma_values_of(items@);
            assert(values_of(items@) =~= values);
        }
        Ok(Intermediate::Array(items))
    }
}

impl<T0, T1, T2, T3, T4, T5, T6, T7, T8, T9, T10, T11> Deserialize for (T0, T1, T2, T3, T4, T5, T6, T7, T8, T9, T10, T11,) where T0: Deserialize, T1: Deserialize, T2: Deserialize, T3: Deserialize, T4: Deserialize, T5: Deserialize, T6: Deserialize, T7: Deserialize, T8: Deserialize, T9: Deserialize, T10: Deserialize, T11: Deserialize {
    open spec fn deserialize_error(val: Value) -> Option<ErrorView> {
        match val {
            Value::Array(items) => if items.len() < 12 {
                Some(ErrorView::InvalidValue(array_of_length(12)))
            } else {
                match T0::deserialize_error(items[0]) {
                    Some(e) => Some(e),
                    None => 
                    match T1::deserialize_error(items[1]) {
                        Some(e) => Some(e),
                        None => 
                        match T2::deserialize_error(items[2]) {
                            Some(e) => Some(e),
                            None => 
                            match T3::deserialize_error(items[3]) {
                                Some(e) => Some(e),
                                None => 
                                match T4::deserialize_error(items[4]) {
                                    Some(e) => Some(e),
                                    None => 
                                    match T5::deserialize_error(items[5]) {
                                        Some(e) => Some(e),
                                        None => 
                                        match T6::deserialize_error(items[6]) {
                                            Some(e) => Some(e),
                                            None => 
                                            match T7::deserialize_error(items[7]) {
                                                Some(e) => Some(e),
                                                None => 
                                                match T8::deserialize_error(items[8]) {
                                                    Some(e) => Some(e),
                                                    None => 
                                                    match T9::deserialize_error(items[9]) {
                                                        Some(e) => Some(e),
                                                        None => 
                                                        match T10::deserialize_error(items[10]) {
                                                            Some(e) => Some(e),
                                                            None => 
                                                            T11::deserialize_error(items[11])
                                                        },
                                                    },
                                                },
                                            },
                                        },
                                    },
                                },
                            },
                        },
                    },
                }
            },
            _ => Some(ErrorView::InvalidValue(array_of_length(12))),
        }
    }

    open spec fn deserializes_to(val: Value, out: Self) -> bool {
        val is Array && val->Array_0.len() >= 12
            && T0::deserializes_to(val->Array_0[0], out.0)
            && T1::deserializes_to(val->Array_0[1], out.1)
            && T2::deserializes_to(val->Array_0[2], out.2)
            && T3::deserializes_to(val->Array_0[3], out.3)
            && T4::deserializes_to(val->Array_0[4], out.4)
            && T5::deserializes_to(val->Array_0[5], out.5)
            && T6::deserializes_to(val->Array_0[6], out.6)
            && T7::deserializes_to(val->Array_0[7], out.7)
            && T8::deserializes_to(val->Array_0[8], out.8)
            && T9::deserializes_to(val->Array_0[9], out.9)
            && T10::deserializes_to(val->Array_0[10], out.10)
            && T11::deserializes_to(val->Array_0[11], out.11)
    }

    fn deserialize(val: &Intermediate) -> (r: Result<Self, Error>) {
        let items = match array_of_at_least(val, 12) {
            Ok(items) => items,
            Err(e) => {
                return Err(e);
            },
        };
        let v0 = match T0::deserialize(&items[0]) {
            Ok(v) => v,
            Err(e) => {
                return Err(e);
            },
        };
        let v1 = match T1::deserialize(&items[1]) {
            Ok(v) => v,
            Err(e) => {
                return Err(e);
            },
        };
        let v2 = match T2::deserialize(&items[2]) {
            Ok(v) => v,
            Err(e) => {
                return Err(e);
            },
        };
        let v3 = match T3::deserialize(&items[3]) {
            Ok(v) => v,
            Err(e) => {
                return Err(e);
            },
        };
        let v4 = match T4::deserialize(&items[4]) {
            Ok(v) => v,
            Err(e) => {
                return Err(e);
            },
        };
        let v5 = match T5::deserialize(&items[5]) {
            Ok(v) => v,
            Err(e) => {
                return Err(e);
            },
        };
        let v6 = match T6::deserialize(&items[6]) {
            Ok(v) => v,
            Err(e) => {
                return Err(e);
            },
        };
        let v7 = match T7::deserialize(&items[7]) {
            Ok(v) => v,
            Err(e) => {
                return Err(e);
            },
        };
        let v8 = match T8::deserialize(&items[8]) {
            Ok(v) => v,
            Err(e) => {
                return Err(e);
            },
        };
        let v9 = match T9::deserialize(&items[9]) {
            Ok(v) => v,
            Err(e) => {
                return Err(e);
            },
        };
        let v10 = match T10::deserialize(&items[10]) {
            Ok(v) => v,
            Err(e) => {
                return Err(e);
            },
        };
        let v11 = match T11::deserialize(&items[11]) {
            Ok(v) => v,
            Err(e) => {
                return Err(e);
            },
        };
        Ok((v0, v1, v2, v3, v4, v5, v6, v7, v8, v9, v10, v11,))
    }
}

impl<T0, T1, T2, T3, T4, T5, T6, T7, T8, T9, T10, T11> Update for (T0, T1, T2, T3, T4, T5, T6, T7, T8, T9, T10, T11,) where T0: Update, T1: Update, T2: Update, T3: Update, T4: Update, T5: Update, T6: Update, T7: Update, T8: Update, T9: Update, T10: Update, T11: Update {
    open spec fn update_error(&self, val: Value) -> Option<ErrorView> {
        match val {
            Value::Array(items) => if items.len() < 12 {
                Some(ErrorView::InvalidValue(array_of_length(12)))
            } else {
                match self.0.update_error(items[0]) {
                    Some(e) => Some(e),
                    None => 
                    match self.1.update_error(items[1]) {
                        Some(e) => Some(e),
                        None => 
                        match self.2.update_error(items[2]) {
                            Some(e) => Some(e),
                            None => 
                            match self.3.update_error(items[3]) {
                                Some(e) => Some(e),
                                None => 
                                match self.4.update_error(items[4]) {
                                    Some(e) => Some(e),
                                    None => 
                                    match self.5.update_error(items[5]) {
                                        Some(e) => Some(e),
                                        None => 
                                        match self.6.update_error(items[6]) {
                                            Some(e) => Some(e),
                                            None => 
                                            match self.7.update_error(items[7]) {
                                                Some(e) => Some(e),
                                                None => 
                                                match self.8.update_error(items[8]) {
                                                    Some(e) => Some(e),
                                                    None => 
                                                    match self.9.update_error(items[9]) {
                                                        Some(e) => Some(e),
                                                        None => 
                                                        match self.10.update_error(items[10]) {
                                                            Some(e) => Some(e),
                                                            None => 
                                                            self.11.update_error(items[11])
                                                        },
                                                    },
                                                },
                                            },
                                        },
                                    },
                                },
                            },
                        },
                    },
                }
            },
            _ => Some(ErrorView::InvalidValue(array_of_length(12))),
        }
    }

    open spec fn updates_to(&self, val: Value, out: Self) -> bool {
        if val is Array && val->Array_0.len() >= 12 {
            let items = val->Array_0;
            {
                &&& self.0.updates_to(items[0], out.0)
                &&& if self.0.update_error(items[0]) is None {
                    self.1.updates_to(items[1], out.1)
                } else {
                    out.1 == self.1
                }
                &&& if self.0.update_error(items[0]) is None
                    && self.1.update_error(items[1]) is None {
                    self.2.updates_to(items[2], out.2)
                } else {
                    out.2 == self.2
                }
                &&& if self.0.update_error(items[0]) is None
                    && self.1.update_error(items[1]) is None
                    && self.2.update_error(items[2]) is None {
                    self.3.updates_to(items[3], out.3)
                } else {
                    out.3 == self.3
                }
                &&& if self.0.update_error(items[0]) is None
                    && self.1.update_error(items[1]) is None
                    && self.2.update_error(items[2]) is None
                    && self.3.update_error(items[3]) is None {
                    self.4.updates_to(items[4], out.4)
                } else {
                    out.4 == self.4
                }
                &&& if self.0.update_error(items[0]) is None
                    && self.1.update_error(items[1]) is None
                    && self.2.update_error(items[2]) is None
                    && self.3.update_error(items[3]) is None
                    && self.4.update_error(items[4]) is None {
                    self.5.updates_to(items[5], out.5)
                } else {
                    out.5 == self.5
                }
                &&& if self.0.update_error(items[0]) is None
                    && self.1.update_error(items[1]) is None
                    && self.2.update_error(items[2]) is None
                    && self.3.update_error(items[3]) is None
                    && self.4.update_error(items[4]) is None
                    && self.5.update_error(items[5]) is None {
                    self.6.updates_to(items[6], out.6)
                } else {
                    out.6 == self.6
                }
                &&& if self.0.update_error(items[0]) is None
                    && self.1.update_error(items[1]) is None
                    && self.2.update_error(items[2]) is None
                    && self.3.update_error(items[3]) is None
                    && self.4.update_error(items[4]) is None
                    && self.5.update_error(items[5]) is None
                    && self.6.update_error(items[6]) is None {
                    self.7.updates_to(items[7], out.7)
                } else {
                    out.7 == self.7
                }
                &&& if self.0.update_error(items[0]) is None
                    && self.1.update_error(items[1]) is None
                    && self.2.update_error(items[2]) is None
                    && self.3.update_error(items[3]) is None
                    && self.4.update_error(items[4]) is None
                    && self.5.update_error(items[5]) is None
                    && self.6.update_error(items[6]) is None
                    && self.7.update_error(items[7]) is None {
                    self.8.updates_to(items[8], out.8)
                } else {
                    out.8 == self.8
                }
                &&& if self.0.update_error(items[0]) is None
                    && self.1.update_error(items[1]) is None
                    && self.2.update_error(items[2]) is None
                    && self.3.update_error(items[3]) is None
                    && self.4.update_error(items[4]) is None
                    && self.5.update_error(items[5]) is None
                    && self.6.update_error(items[6]) is None
                    && self.7.update_error(items[7]) is None
                    && self.8.update_error(items[8]) is None {
                    self.9.updates_to(items[9], out.9)
                } else {
                    out.9 == self.9
                }
                &&& if self.0.update_error(items[0]) is None
                    && self.1.update_error(items[1]) is None
                    && self.2.update_error(items[2]) is None
                    && self.3.update_error(items[3]) is None
                    && self.4.update_error(items[4]) is None
                    && self.5.update_error(items[5]) is None
                    && self.6.update_error(items[6]) is None
                    && self.7.update_error(items[7]) is None
                    && self.8.update_error(items[8]) is None
                    && self.9.update_error(items[9]) is None {
                    self.10.updates_to(items[10], out.10)
                } else {
                    out.10 == self.10
                }
                &&& if self.0.update_error(items[0]) is None
                    && self.1.update_error(items[1]) is None
                    && self.2.update_error(items[2]) is None
                    && self.3.update_error(items[3]) is None
                    && self.4.update_error(items[4]) is None
                    && self.5.update_error(items[5]) is None
                    && self.6.update_error(items[6]) is None
                    && self.7.update_error(items[7]) is None
                    && self.8.update_error(items[8]) is None
                    && self.9.update_error(items[9]) is None
                    && self.10.update_error(items[10]) is None {
                    self.11.updates_to(items[11], out.11)
                } else {
                    out.11 == self.11
                }
            }
        } else {
            out == *self
        }
    }

    fn update(&mut self, val: &Intermediate) -> (r: Result<(), Error>) {
        let items = match array_of_at_least(val, 12) {
            Ok(items) => items,
            Err(e) => {
                return Err(e);
            },
        };
        match self.0.update(&items[0]) {
            Ok(_) => {},
            Err(e) => {
                return Err(e);
            },
        }
        match self.1.update(&items[1]) {
            Ok(_) => {},
            Err(e) => {
                return Err(e);
            },
        }
        match self.2.update(&items[2]) {
            Ok(_) => {},
            Err(e) => {
                return Err(e);
            },
        }
        match self.3.update(&items[3]) {
            Ok(_) => {},
            Err(e) => {
                return Err(e);
            },
        }
        match self.4.update(&items[4]) {
            Ok(_) => {},
            Err(e) => {
                return Err(e);
            },
        }
        match self.5.update(&items[5]) {
            Ok(_) => {},
            Err(e) => {
                return Err(e);
            },
        }
        match self.6.update(&items[6]) {
            Ok(_) => {},
            Err(e) => {
                return Err(e);
            },
        }
        match self.7.update(&items[7]) {
            Ok(_) => {},
            Err(e) => {
                return Err(e);
            },
        }
        match self.8.update(&items[8]) {
            Ok(_) => {},
            Err(e) => {
                return Err(e);
            },
        }
        match self.9.update(&items[9]) {
            Ok(_) => {},
            Err(e) => {
                return Err(e);
            },
        }
        match self.10.update(&items[10]) {
            Ok(_) => {},
            Err(e) => {
                return Err(e);
            },
        }
        match self.11.update(&items[11]) {
            Ok(_) => {},
            Err(e) => {
                return Err(e);
            },
        }
        Ok(())
    }
}

impl<T0: RoundTrip, T1: RoundTrip, T2: RoundTrip, T3: RoundTrip, T4: RoundTrip, T5: RoundTrip, T6: RoundTrip, T7: RoundTrip, T8: RoundTrip, T9: RoundTrip, T10: RoundTrip, T11: RoundTrip> RoundTrip for (T0, T1, T2, T3, T4, T5, T6, T7, T8, T9, T10, T11,) {
    open spec fn lossless(&self) -> bool {
        self.0.lossless()
            && self.1.lossless()
            && self.2.lossless()
            && self.3.lossless()
            && self.4.lossless()
            && self.5.lossless()
            && self.6.lossless()
            && self.7.lossless()
            && self.8.lossless()
            && self.9.lossless()
            && self.10.lossless()
            && self.11.lossless()
    }

    proof fn round_trip(&self) {
        self.0.round_trip();
        self.1.round_trip();
        self.2.round_trip();
        self.3.round_trip();
        self.4.round_trip();
        self.5.round_trip();
        self.6.round_trip();
        self.7.round_trip();
        self.8.round_trip();
        self.9.round_trip();
        self.10.round_trip();
        self.11.round_trip();
    }
}

impl<T0, T1, T2, T3, T4, T5, T6, T7, T8, T9, T10, T11, T12> Serialize for (T0, T1, T2, T3, T4, T5, T6, T7, T8, T9, T10, T11, T12,) where T0: Serialize, T1: Serialize, T2: Serialize, T3: Serialize, T4: Serialize, T5: Serialize, T6: Serialize, T7: Serialize, T8: Serialize, T9: Serialize, T10: Serialize, T11: Serialize, T12: Serialize {
    open spec fn serialized(&self) -> Result<Value, ErrorView> {
        match self.0.serialized() {
            Err(e) => Err(e),
            Ok(v0) => 
            match self.1.serialized() {
                Err(e) => Err(e),
                Ok(v1) => 
                match self.2.serialized() {
                    Err(e) => Err(e),
                    Ok(v2) => 
                    match self.3.serialized() {
                        Err(e) => Err(e),
                        Ok(v3) => 
                        match self.4.serialized() {
                            Err(e) => Err(e),
                            Ok(v4) => 
                            match self.5.serialized() {
                                Err(e) => Err(e),
                                Ok(v5) => 
                                match self.6.serialized() {
                                    Err(e) => Err(e),
                                    Ok(v6) => 
                                    match self.7.serialized() {
                                        Err(e) => Err(e),
                                        Ok(v7) => 
                                        match self.8.serialized() {
                                            Err(e) => Err(e),
                                            Ok(v8) => 
                                            match self.9.serialized() {
                                                Err(e) => Err(e),
                                                Ok(v9) => 
                                                match self.10.serialized() {
                                                    Err(e) => Err(e),
                                                    Ok(v10) => 
                                                    match self.11.serialized() {
                                                        Err(e) => Err(e),
                                                        Ok(v11) => 
                                                        match self.12.serialized() {
                                                            Err(e) => Err(e),
                                                            Ok(v12) => Ok(Value::Array(seq![v0, v1, v2, v3, v4, v5, v6, v7, v8, v9, v10, v11, v12])),
                                                        },
                                                    },
                                                },
                                            },
                                        },
                                    },
                                },
                            },
                        },
                    },
                },
            },
        }
    }

    fn serialize(&self) -> (r: Result<Intermediate, Error>) {
        let v0 = self.0.serialize()?;
        let v1 = self.1.serialize()?;
        let v2 = self.2.serialize()?;
        let v3 = self.3.serialize()?;
        let v4 = self.4.serialize()?;
        let v5 = self.5.serialize()?;
        let v6 = self.6.serialize()?;
        let v7 = self.7.serialize()?;
        let v8 = self.8.serialize()?;
        let v9 = self.9.serialize()?;
        let v10 = self.10.serialize()?;
        let v11 = self.11.serialize()?;
        let v12 = self.12.serialize()?;
        let ghost values = seq![v0@, v1@, v2@, v3@, v4@, v5@, v6@, v7@, v8@, v9@, v10@, v11@, v12@];
        let items = vec![v0, v1, v2, v3, v4, v5, v6, v7, v8, v9, v10, v11, v12];
        proof {
            lemma_values_of(items@);
            assert(values_of(items@) =~= values);
        }
        Ok(Intermediate::Array(items))
    }
}

impl<T0, T1, T2, T3, T4, T5, T6, T7, T8, T9, T10, T11, T12> Deserialize for (T0, T1, T2, T3, T4, T5, T6, T7, T8, T9, T10, T11, T12,) where T0: Deserialize, T1: Deserialize, T2: Deserialize, T3: Deserialize, T4: Deserialize, T5: Deserialize, T6: Deserialize, T7: Deserialize, T8: Deserialize, T9: Deserialize, T10: Deserialize, T11: Deserialize, T12: Deserialize {
    open spec fn deserialize_error(val: Value) -> Option<ErrorView> {
        match val {
            Value::Array(items) => if items.len() < 13 {
                Some(ErrorView::InvalidValue(array_of_length(13)))
            } else {
                match T0::deserialize_error(items[0]) {
                    Some(e) => Some(e),
                    None => 
                    match T1::deserialize_error(items[1]) {
                        Some(e) => Some(e),
                        None => 
                        match T2::deserialize_error(items[2]) {
                            Some(e) => Some(e),
                            None => 
                            match T3::deserialize_error(items[3]) {
                                Some(e) => Some(e),
                                None => 
                                match T4::deserialize_error(items[4]) {
                                    Some(e) => Some(e),
                                    None => 
                                    match T5::deserialize_error(items[5]) {
                                        Some(e) => Some(e),
                                        None => 
                                        match T6::deserialize_error(items[6]) {
                                            Some(e) => Some(e),
                                            None => 
                                            match T7::deserialize_error(items[7]) {
                                                Some(e) => Some(e),
                                                None => 
                                                match T8::deserialize_error(items[8]) {
                                                    Some(e) => Some(e),
                                                    None => 
                                                    match T9::deserialize_error(items[9]) {
                                                        Some(e) => Some(e),
                                                        None => 
                                                        match T10::deserialize_error(items[10]) {
                                                            Some(e) => Some(e),
                                                            None => 
                                                            match T11::deserialize_error(items[11]) {
                                                                Some(e) => Some(e),
                                                                None => 
                                                                T12::deserialize_error(items[12])
                                                            },
                                                        },
                                                    },
                                                },
                                            },
                                        },
                                    },
                                },
                            },
                        },
                    },
                }
            },
            _ => Some(ErrorView::InvalidValue(array_of_length(13))),
        }
    }

    open spec fn deserializes_to(val: Value, out: Self) -> bool {
        val is Array && val->Array_0.len() >= 13
            && T0::deserializes_to(val->Array_0[0], out.0)
            && T1::deserializes_to(val->Array_0[1], out.1)
            && T2::deserializes_to(val->Array_0[2], out.2)
            && T3::deserializes_to(val->Array_0[3], out.3)
            && T4::deserializes_to(val->Array_0[4], out.4)
            && T5::deserializes_to(val->Array_0[5], out.5)
            && T6::deserializes_to(val->Array_0[6], out.6)
            && T7::deserializes_to(val->Array_0[7], out.7)
            && T8::deserializes_to(val->Array_0[8], out.8)
            && T9::deserializes_to(val->Array_0[9], out.9)
            && T10::deserializes_to(val->Array_0[10], out.10)
            && T11::deserializes_to(val->Array_0[11], out.11)
            && T12::deserializes_to(val->Array_0[12], out.12)
    }

    fn deserialize(val: &Intermediate) -> (r: Result<Self, Error>) {
        let items = match array_of_at_least(val, 13) {
            Ok(items) => items,
            Err(e) => {
                return Err(e);
            },
        };
        let v0 = match T0::deserialize(&items[0]) {
            Ok(v) => v,
            Err(e) => {
                return Err(e);
            },
        };
        let v1 = match T1::deserialize(&items[1]) {
            Ok(v) => v,
            Err(e) => {
                return Err(e);
            },
        };
        let v2 = match T2::deserialize(&items[2]) {
            Ok(v) => v,
            Err(e) => {
                return Err(e);
            },
        };
        let v3 = match T3::deserialize(&items[3]) {
            Ok(v) => v,
            Err(e) => {
                return Err(e);
            },
        };
        let v4 = match T4::deserialize(&items[4]) {
            Ok(v) => v,
            Err(e) => {
                return Err(e);
            },
        };
        let v5 = match T5::deserialize(&items[5]) {
            Ok(v) => v,
            Err(e) => {
                return Err(e);
            },
        };
        let v6 = match T6::deserialize(&items[6]) {
            Ok(v) => v,
            Err(e) => {
                return Err(e);
            },
        };
        let v7 = match T7::deserialize(&items[7]) {
            Ok(v) => v,
            Err(e) => {
                return Err(e);
            },
        };
        let v8 = match T8::deserialize(&items[8]) {
            Ok(v) => v,
            Err(e) => {
                return Err(e);
            },
        };
        let v9 = match T9::deserialize(&items[9]) {
            Ok(v) => v,
            Err(e) => {
                return Err(e);
            },
        };
        let v10 = match T10::deserialize(&items[10]) {
            Ok(v) => v,
            Err(e) => {
                return Err(e);
            },
        };
        let v11 = match T11::deserialize(&items[11]) {
            Ok(v) => v,
            Err(e) => {
                return Err(e);
            },
        };
        let v12 = match T12::deserialize(&items[12]) {
            Ok(v) => v,
            Err(e) => {
                return Err(e);
            },
        };
        Ok((v0, v1, v2, v3, v4, v5, v6, v7, v8, v9, v10, v11, v12,))
    }
}

impl<T0, T1, T2, T3, T4, T5, T6, T7, T8, T9, T10, T11, T12> Update for (T0, T1, T2, T3, T4, T5, T6, T7, T8, T9, T10, T11, T12,) where T0: Update, T1: Update, T2: Update, T3: Update, T4: Update, T5: Update, T6: Update, T7: Update, T8: Update, T9: Update, T10: Update, T11: Update, T12: Update {
    open spec fn update_error(&self, val: Value) -> Option<ErrorView> {
        match val {
            Value::Array(items) => if items.len() < 13 {
                Some(ErrorView::InvalidValue(array_of_length(13)))
            } else {
                match self.0.update_error(items[0]) {
                    Some(e) => Some(e),
                    None => 
                    match self.1.update_error(items[1]) {
                        Some(e) => Some(e),
                        None => 
                        match self.2.update_error(items[2]) {
                            Some(e) => Some(e),
                            None => 
                            match self.3.update_error(items[3]) {
                                Some(e) => Some(e),
                                None => 
                                match self.4.update_error(items[4]) {
                                    Some(e) => Some(e),
                                    None => 
                                    match self.5.update_error(items[5]) {
                                        Some(e) => Some(e),
                                        None => 
                                        match self.6.update_error(items[6]) {
                                            Some(e) => Some(e),
                                            None => 
                                            match self.7.update_error(items[7]) {
                                                Some(e) => Some(e),
                                                None => 
                                                match self.8.update_error(items[8]) {
                                                    Some(e) => Some(e),
                                                    None => 
                                                    match self.9.update_error(items[9]) {
                                                        Some(e) => Some(e),
                                                        None => 
                                                        match self.10.update_error(items[10]) {
                                                            Some(e) => Some(e),
                                                            None => 
                                                            match self.11.update_error(items[11]) {
                                                                Some(e) => Some(e),
                                                                None => 
                                                                self.12.update_error(items[12])
                                                            },
                                                        },
                                                    },
                                                },
                                            },
                                        },
                                    },
                                },
                            },
                        },
                    },
                }
            },
            _ => Some(ErrorView::InvalidValue(array_of_length(13))),
        }
    }

    open spec fn updates_to(&self, val: Value, out: Self) -> bool {
        if val is Array && val->Array_0.len() >= 13 {
            let items = val->Array_0;
            {
                &&& self.0.updates_to(items[0], out.0)
                &&& if self.0.update_error(items[0]) is None {
                    self.1.updates_to(items[1], out.1)
                } else {
                    out.1 == self.1
                }
                &&& if self.0.update_error(items[0]) is None
                    && self.1.update_error(items[1]) is None {
                    self.2.updates_to(items[2], out.2)
                } else {
                    out.2 == self.2
                }
                &&& if self.0.update_error(items[0]) is None
                    && self.1.update_error(items[1]) is None
                    && self.2.update_error(items[2]) is None {
                    self.3.updates_to(items[3], out.3)
                } else {
                    out.3 == self.3
                }
                &&& if self.0.update_error(items[0]) is None
                    && self.1.update_error(items[1]) is None
                    && self.2.update_error(items[2]) is None
                    && self.3.update_error(items[3]) is None {
                    self.4.updates_to(items[4], out.4)
                } else {
                    out.4 == self.4
                }
                &&& if self.0.update_error(items[0]) is None
                    && self.1.update_error(items[1]) is None
                    && self.2.update_error(items[2]) is None
                    && self.3.update_error(items[3]) is None
                    && self.4.update_error(items[4]) is None {
                    self.5.updates_to(items[5], out.5)
                } else {
                    out.5 == self.5
                }
                &&& if self.0.update_error(items[0]) is None
                    && self.1.update_error(items[1]) is None
                    && self.2.update_error(items[2]) is None
                    && self.3.update_error(items[3]) is None
                    && self.4.update_error(items[4]) is None
                    && self.5.update_error(items[5]) is None {
                    self.6.updates_to(items[6], out.6)
                } else {
                    out.6 == self.6
                }
                &&& if self.0.update_error(items[0]) is None
                    && self.1.update_error(items[1]) is None
                    && self.2.update_error(items[2]) is None
                    && self.3.update_error(items[3]) is None
                    && self.4.update_error(items[4]) is None
                    && self.5.update_error(items[5]) is None
                    && self.6.update_error(items[6]) is None {
                    self.7.updates_to(items[7], out.7)
                } else {
                    out.7 == self.7
                }
                &&& if self.0.update_error(items[0]) is None
                    && self.1.update_error(items[1]) is None
                    && self.2.update_error(items[2]) is None
                    && self.3.update_error(items[3]) is None
                    && self.4.update_error(items[4]) is None
                    && self.5.update_error(items[5]) is None
                    && self.6.update_error(items[6]) is None
                    && self.7.update_error(items[7]) is None {
                    self.8.updates_to(items[8], out.8)
                } else {
                    out.8 == self.8
                }
                &&& if self.0.update_error(items[0]) is None
                    && self.1.update_error(items[1]) is None
                    && self.2.update_error(items[2]) is None
                    && self.3.update_error(items[3]) is None
                    && self.4.update_error(items[4]) is None
                    && self.5.update_error(items[5]) is None
                    && self.6.update_error(items[6]) is None
                    && self.7.update_error(items[7]) is None
                    && self.8.update_error(items[8]) is None {
                    self.9.updates_to(items[9], out.9)
                } else {
                    out.9 == self.9
                }
                &&& if self.0.update_error(items[0]) is None
                    && self.1.update_error(items[1]) is None
                    && self.2.update_error(items[2]) is None
                    && self.3.update_error(items[3]) is None
                    && self.4.update_error(items[4]) is None
                    && self.5.update_error(items[5]) is None
                    && self.6.update_error(items[6]) is None
                    && self.7.update_error(items[7]) is None
                    && self.8.update_error(items[8]) is None
                    && self.9.update_error(items[9]) is None {
                    self.10.updates_to(items[10], out.10)
                } else {
                    out.10 == self.10
                }
                &&& if self.0.update_error(items[0]) is None
                    && self.1.update_error(items[1]) is None
                    && self.2.update_error(items[2]) is None
                    && self.3.update_error(items[3]) is None
                    && self.4.update_error(items[4]) is None
                    && self.5.update_error(items[5]) is None
                    && self.6.update_error(items[6]) is None
                    && self.7.update_error(items[7]) is None
                    && self.8.update_error(items[8]) is None
                    && self.9.update_error(items[9]) is None
                    && self.10.update_error(items[10]) is None {
                    self.11.updates_to(items[11], out.11)
                } else {
                    out.11 == self.11
                }
                &&& if self.0.update_error(items[0]) is None
                    && self.1.update_error(items[1]) is None
                    && self.2.update_error(items[2]) is None
                    && self.3.update_error(items[3]) is None
                    && self.4.update_error(items[4]) is None
                    && self.5.update_error(items[5]) is None
                    && self.6.update_error(items[6]) is None
                    && self.7.update_error(items[7]) is None
                    && self.8.update_error(items[8]) is None
                    && self.9.update_error(items[9]) is None
                    && self.10.update_error(items[10]) is None
                    && self.11.update_error(items[11]) is None {
                    self.12.updates_to(items[12], out.12)
                } else {
                    out.12 == self.12
                }
            }
        } else {
            out == *self
        }
    }

    fn update(&mut self, val: &Intermediate) -> (r: Result<(), Error>) {
        let items = match array_of_at_least(val, 13) {
            Ok(items) => items,
            Err(e) => {
                return Err(e);
            },
        };
        match self.0.update(&items[0]) {
            Ok(_) => {},
            Err(e) => {
                return Err(e);
            },
        }
        match self.1.update(&items[1]) {
            Ok(_) => {},
            Err(e) => {
                return Err(e);
            },
        }
        match self.2.update(&items[2]) {
            Ok(_) => {},
            Err(e) => {
                return Err(e);
            },
        }
        match self.3.update(&items[3]) {
            Ok(_) => {},
            Err(e) => {
                return Err(e);
            },
        }
        match self.4.update(&items[4]) {
            Ok(_) => {},
            Err(e) => {
                return Err(e);
            },
        }
        match self.5.update(&items[5]) {
            Ok(_) => {},
            Err(e) => {
                return Err(e);
            },
        }
        match self.6.update(&items[6]) {
            Ok(_) => {},
            Err(e) => {
                return Err(e);
            },
        }
        match self.7.update(&items[7]) {
            Ok(_) => {},
            Err(e) => {
                return Err(e);
            },
        }
        match self.8.update(&items[8]) {
            Ok(_) => {},
            Err(e) => {
                return Err(e);
            },
        }
        match self.9.update(&items[9]) {
            Ok(_) => {},
            Err(e) => {
                return Err(e);
            },
        }
        match self.10.update(&items[10]) {
            Ok(_) => {},
            Err(e) => {
                return Err(e);
            },
        }
        match self.11.update(&items[11]) {
            Ok(_) => {},
            Err(e) => {
                return Err(e);
            },
        }
        match self.12.update(&items[12]) {
            Ok(_) => {},
            Err(e) => {
                return Err(e);
            },
        }
        Ok(())
    }
}

impl<T0: RoundTrip, T1: RoundTrip, T2: RoundTrip, T3: RoundTrip, T4: RoundTrip, T5: RoundTrip, T6: RoundTrip, T7: RoundTrip, T8: RoundTrip, T9: RoundTrip, T10: RoundTrip, T11: RoundTrip, T12: RoundTrip> RoundTrip for (T0, T1, T2, T3, T4, T5, T6, T7, T8, T9, T10, T11, T12,) {
    open spec fn lossless(&self) -> bool {
        self.0.lossless()
            && self.1.lossless()
            && self.2.lossless()
            && self.3.lossless()
            && self.4.lossless()
            && self.5.lossless()
            && self.6.lossless()
            && self.7.lossless()
            && self.8.lossless()
            && self.9.lossless()
            && self.10.lossless()
            && self.11.lossless()
            && self.12.lossless()
    }

    proof fn round_trip(&self) {
        self.0.round_trip();
        self.1.round_trip();
        self.2.round_trip();
        self.3.round_trip();
        self.4.round_trip();
        self.5.round_trip();
        self.6.round_trip();
        self.7.round_trip();
        self.8.round_trip();
        self.9.round_trip();
        self.10.round_trip();
        self.11.round_trip();
        self.12.round_trip();
    }
}

impl<T0, T1, T2, T3, T4, T5, T6, T7, T8, T9, T10, T11, T12, T13> Serialize for (T0, T1, T2, T3, T4, T5, T6, T7, T8, T9, T10, T11, T12, T13,) where T0: Serialize, T1: Serialize, T2: Serialize, T3: Serialize, T4: Serialize, T5: Serialize, T6: Serialize, T7: Serialize, T8: Serialize, T9: Serialize, T10: Serialize, T11: Serialize, T12: Serialize, T13: Serialize {
    open spec fn serialized(&self) -> Result<Value, ErrorView> {
        match self.0.serialized() {
            Err(e) => Err(e),
            Ok(v0) => 
            match self.1.serialized() {
                Err(e) => Err(e),
                Ok(v1) => 
                match self.2.serialized() {
                    Err(e) => Err(e),
                    Ok(v2) => 
                    match self.3.serialized() {
                        Err(e) => Err(e),
                        Ok(v3) => 
                        match self.4.serialized() {
                            Err(e) => Err(e),
                            Ok(v4) => 
                            match self.5.serialized() {
                                Err(e) => Err(e),
                                Ok(v5) => 
                                match self.6.serialized() {
                                    Err(e) => Err(e),
                                    Ok(v6) => 
                                    match self.7.serialized() {
                                        Err(e) => Err(e),
                                        Ok(v7) => 
                                        match self.8.serialized() {
                                            Err(e) => Err(e),
                                            Ok(v8) => 
                                            match self.9.serialized() {
                                                Err(e) => Err(e),
                                                Ok(v9) => 
                                                match self.10.serialized() {
                                                    Err(e) => Err(e),
                                                    Ok(v10) => 
                                                    match self.11.serialized() {
                                                        Err(e) => Err(e),
                                                        Ok(v11) => 
                                                        match self.12.serialized() {
                                                            Err(e) => Err(e),
                                                            Ok(v12) => 
                                                            match self.13.serialized() {
                                                                Err(e) => Err(e),
                                                                Ok(v13) => Ok(Value::Array(seq![v0, v1, v2, v3, v4, v5, v6, v7, v8, v9, v10, v11, v12, v13])),
                                                            },
                                                        },
                                                    },
                                                },
                                            },
                                        },
                                    },
                                },
                            },
                        },
                    },
                },
            },
        }
    }

    fn serialize(&self) -> (r: Result<Intermediate, Error>) {
        let v0 = self.0.serialize()?;
        let v1 = self.1.serialize()?;
        let v2 = self.2.serialize()?;
        let v3 = self.3.serialize()?;
        let v4 = self.4.serialize()?;
        let v5 = self.5.serialize()?;
        let v6 = self.6.serialize()?;
        let v7 = self.7.serialize()?;
        let v8 = self.8.serialize()?;
        let v9 = self.9.serialize()?;
        let v10 = self.10.serialize()?;
        let v11 = self.11.serialize()?;
        let v12 = self.12.serialize()?;
        let v13 = self.13.serialize()?;
        let ghost values = seq![v0@, v1@, v2@, v3@, v4@, v5@, v6@, v7@, v8@, v9@, v10@, v11@, v12@, v13@];
        let items = vec![v0, v1, v2, v3, v4, v5, v6, v7, v8, v9, v10, v11, v12, v13];
        proof {
            lemma_values_of(items@);
            assert(values_of(items@) =~= values);
        }
        Ok(Intermediate::Array(items))
    }
}

impl<T0, T1, T2, T3, T4, T5, T6, T7, T8, T9, T10, T11, T12, T13> Deserialize for (T0, T1, T2, T3, T4, T5, T6, T7, T8, T9, T10, T11, T12, T13,) where T0: Deserialize, T1: Deserialize, T2: Deserialize, T3: Deserialize, T4: Deserialize, T5: Deserialize, T6: Deserialize, T7: Deserialize, T8: Deserialize, T9: Deserialize, T10: Deserialize, T11: Deserialize, T12: Deserialize, T13: Deserialize {
    open spec fn deserialize_error(val: Value) -> Option<ErrorView> {
        match val {
            Value::Array(items) => if items.len() < 14 {
                Some(ErrorView::InvalidValue(array_of_length(14)))
            } else {
                match T0::deserialize_error(items[0]) {
                    Some(e) => Some(e),
                    None => 
                    match T1::deserialize_error(items[1]) {
                        Some(e) => Some(e),
                        None => 
                        match T2::deserialize_error(items[2]) {
                            Some(e) => Some(e),
                            None => 
                            match T3::deserialize_error(items[3]) {
                                Some(e) => Some(e),
                                None => 
                                match T4::deserialize_error(items[4]) {
                                    Some(e) => Some(e),
                                    None => 
                                    match T5::deserialize_error(items[5]) {
                                        Some(e) => Some(e),
                                        None => 
                                        match T6::deserialize_error(items[6]) {
                                            Some(e) => Some(e),
                                            None => 
                                            match T7::deserialize_error(items[7]) {
                                                Some(e) => Some(e),
                                                None => 
                                                match T8::deserialize_error(items[8]) {
                                                    Some(e) => Some(e),
                                                    None => 
                                                    match T9::deserialize_error(items[9]) {
                                                        Some(e) => Some(e),
                                                        None => 
                                                        match T10::deserialize_error(items[10]) {
                                                            Some(e) => Some(e),
                                                            None => 
                                                            match T11::deserialize_error(items[11]) {
                                                                Some(e) => Some(e),
                                                                None => 
                                                                match T12::deserialize_error(items[12]) {
                                                                    Some(e) => Some(e),
                                                                    None => 
                                                                    T13::deserialize_error(items[13])
                                                                },
                                                            },
                                                        },
                                                    },
                                                },
                                            },
                                        },
                                    },
                                },
                            },
                        },
                    },
                }
            },
            _ => Some(ErrorView::InvalidValue(array_of_length(14))),
        }
    }

    open spec fn deserializes_to(val: Value, out: Self) -> bool {
        val is Array && val->Array_0.len() >= 14
            && T0::deserializes_to(val->Array_0[0], out.0)
            && T1::deserializes_to(val->Array_0[1], out.1)
            && T2::deserializes_to(val->Array_0[2], out.2)
            && T3::deserializes_to(val->Array_0[3], out.3)
            && T4::deserializes_to(val->Array_0[4], out.4)
            && T5::deserializes_to(val->Array_0[5], out.5)
            && T6::deserializes_to(val->Array_0[6], out.6)
            && T7::deserializes_to(val->Array_0[7], out.7)
            && T8::deserializes_to(val->Array_0[8], out.8)
            && T9::deserializes_to(val->Array_0[9], out.9)
            && T10::deserializes_to(val->Array_0[10], out.10)
            && T11::deserializes_to(val->Array_0[11], out.11)
            && T12::deserializes_to(val->Array_0[12], out.12)
            && T13::deserializes_to(val->Array_0[13], out.13)
    }

    fn deserialize(val: &Intermediate) -> (r: Result<Self, Error>) {
        let items = match array_of_at_least(val, 14) {
            Ok(items) => items,
            Err(e) => {
                return Err(e);
            },
        };
        let v0 = match T0::deserialize(&items[0]) {
            Ok(v) => v,
            Err(e) => {
                return Err(e);
            },
        };
        let v1 = match T1::deserialize(&items[1]) {
            Ok(v) => v,
            Err(e) => {
                return Err(e);
            },
        };
        let v2 = match T2::deserialize(&items[2]) {
            Ok(v) => v,
            Err(e) => {
                return Err(e);
            },
        };
        let v3 = match T3::deserialize(&items[3]) {
            Ok(v) => v,
            Err(e) => {
                return Err(e);
            },
        };
        let v4 = match T4::deserialize(&items[4]) {
            Ok(v) => v,
            Err(e) => {
                return Err(e);
            },
        };
        let v5 = match T5::deserialize(&items[5]) {
            Ok(v) => v,
            Err(e) => {
                return Err(e);
            },
        };
        let v6 = match T6::deserialize(&items[6]) {
            Ok(v) => v,
            Err(e) => {
                return Err(e);
            },
        };
        let v7 = match T7::deserialize(&items[7]) {
            Ok(v) => v,
            Err(e) => {
                return Err(e);
            },
        };
        let v8 = match T8::deserialize(&items[8]) {
            Ok(v) => v,
            Err(e) => {
                return Err(e);
            },
        };
        let v9 = match T9::deserialize(&items[9]) {
            Ok(v) => v,
            Err(e) => {
                return Err(e);
            },
        };
        let v10 = match T10::deserialize(&items[10]) {
            Ok(v) => v,
            Err(e) => {
                return Err(e);
            },
        };
        let v11 = match T11::deserialize(&items[11]) {
            Ok(v) => v,
            Err(e) => {
                return Err(e);
            },
        };
        let v12 = match T12::deserialize(&items[12]) {
            Ok(v) => v,
            Err(e) => {
                return Err(e);
            },
        };
        let v13 = match T13::deserialize(&items[13]) {
            Ok(v) => v,
            Err(e) => {
                return Err(e);
            },
        };
        Ok((v0, v1, v2, v3, v4, v5, v6, v7, v8, v9, v10, v11, v12, v13,))
    }
}

impl<T0, T1, T2, T3, T4, T5, T6, T7, T8, T9, T10, T11, T12, T13> Update for (T0, T1, T2, T3, T4, T5, T6, T7, T8, T9, T10, T11, T12, T13,) where T0: Update, T1: Update, T2: Update, T3: Update, T4: Update, T5: Update, T6: Update, T7: Update, T8: Update, T9: Update, T10: Update, T11: Update, T12: Update, T13: Update {
    open spec fn update_error(&self, val: Value) -> Option<ErrorView> {
        match val {
            Value::Array(items) => if items.len() < 14 {
                Some(ErrorView::InvalidValue(array_of_length(14)))
            } else {
                match self.0.update_error(items[0]) {
                    Some(e) => Some(e),
                    None => 
                    match self.1.update_error(items[1]) {
                        Some(e) => Some(e),
                        None => 
                        match self.2.update_error(items[2]) {
                            Some(e) => Some(e),
                            None => 
                            match self.3.update_error(items[3]) {
                                Some(e) => Some(e),
                                None => 
                                match self.4.update_error(items[4]) {
                                    Some(e) => Some(e),
                                    None => 
                                    match self.5.update_error(items[5]) {
                                        Some(e) => Some(e),
                                        None => 
                                        match self.6.update_error(items[6]) {
                                            Some(e) => Some(e),
                                            None => 
                                            match self.7.update_error(items[7]) {
                                                Some(e) => Some(e),
                                                None => 
                                                match self.8.update_error(items[8]) {
                                                    Some(e) => Some(e),
                                                    None => 
                                                    match self.9.update_error(items[9]) {
                                                        Some(e) => Some(e),
                                                        None => 
                                                        match self.10.update_error(items[10]) {
                                                            Some(e) => Some(e),
                                                            None => 
                                                            match self.11.update_error(items[11]) {
                                                                Some(e) => Some(e),
                                                                None => 
                                                                match self.12.update_error(items[12]) {
                                                                    Some(e) => Some(e),
                                                                    None => 
                                                                    self.13.update_error(items[13])
                                                                },
                                                            },
                                                        },
                                                    },
                                                },
                                            },
                                        },
                                    },
                                },
                            },
                        },
                    },
                }
            },
            _ => Some(ErrorView::InvalidValue(array_of_length(14))),
        }
    }

    open spec fn updates_to(&self, val: Value, out: Self) -> bool {
        if val is Array && val->Array_0.len() >= 14 {
            let items = val->Array_0;
            {
                &&& self.0.updates_to(items[0], out.0)
                &&& if self.0.update_error(items[0]) is None {
                    self.1.updates_to(items[1], out.1)
                } else {
                    out.1 == self.1
                }
                &&& if self.0.update_error(items[0]) is None
                    && self.1.update_error(items[1]) is None {
                    self.2.updates_to(items[2], out.2)
                } else {
                    out.2 == self.2
                }
                &&& if self.0.update_error(items[0]) is None
                    && self.1.update_error(items[1]) is None
                    && self.2.update_error(items[2]) is None {
                    self.3.updates_to(items[3], out.3)
                } else {
                    out.3 == self.3
                }
                &&& if self.0.update_error(items[0]) is None
                    && self.1.update_error(items[1]) is None
                    && self.2.update_error(items[2]) is None
                    && self.3.update_error(items[3]) is None {
                    self.4.updates_to(items[4], out.4)
                } else {
                    out.4 == self.4
                }
                &&& if self.0.update_error(items[0]) is None
                    && self.1.update_error(items[1]) is None
                    && self.2.update_error(items[2]) is None
                    && self.3.update_error(items[3]) is None
                    && self.4.update_error(items[4]) is None {
                    self.5.updates_to(items[5], out.5)
                } else {
                    out.5 == self.5
                }
                &&& if self.0.update_error(items[0]) is None
                    && self.1.update_error(items[1]) is None
                    && self.2.update_error(items[2]) is None
                    && self.3.update_error(items[3]) is None
                    && self.4.update_error(items[4]) is None
                    && self.5.update_error(items[5]) is None {
                    self.6.updates_to(items[6], out.6)
                } else {
                    out.6 == self.6
                }
                &&& if self.0.update_error(items[0]) is None
                    && self.1.update_error(items[1]) is None
                    && self.2.update_error(items[2]) is None
                    && self.3.update_error(items[3]) is None
                    && self.4.update_error(items[4]) is None
                    && self.5.update_error(items[5]) is None
                    && self.6.update_error(items[6]) is None {
                    self.7.updates_to(items[7], out.7)
                } else {
                    out.7 == self.7
                }
                &&& if self.0.update_error(items[0]) is None
                    && self.1.update_error(items[1]) is None
                    && self.2.update_error(items[2]) is None
                    && self.3.update_error(items[3]) is None
                    && self.4.update_error(items[4]) is None
                    && self.5.update_error(items[5]) is None
                    && self.6.update_error(items[6]) is None
                    && self.7.update_error(items[7]) is None {
                    self.8.updates_to(items[8], out.8)
                } else {
                    out.8 == self.8
                }
                &&& if self.0.update_error(items[0]) is None
                    && self.1.update_error(items[1]) is None
                    && self.2.update_error(items[2]) is None
                    && self.3.update_error(items[3]) is None
                    && self.4.update_error(items[4]) is None
                    && self.5.update_error(items[5]) is None
                    && self.6.update_error(items[6]) is None
                    && self.7.update_error(items[7]) is None
                    && self.8.update_error(items[8]) is None {
                    self.9.updates_to(items[9], out.9)
                } else {
                    out.9 == self.9
                }
                &&& if self.0.update_error(items[0]) is None
                    && self.1.update_error(items[1]) is None
                    && self.2.update_error(items[2]) is None
                    && self.3.update_error(items[3]) is None
                    && self.4.update_error(items[4]) is None
                    && self.5.update_error(items[5]) is None
                    && self.6.update_error(items[6]) is None
                    && self.7.update_error(items[7]) is None
                    && self.8.update_error(items[8]) is None
                    && self.9.update_error(items[9]) is None {
                    self.10.updates_to(items[10], out.10)
                } else {
                    out.10 == self.10
                }
                &&& if self.0.update_error(items[0]) is None
                    && self.1.update_error(items[1]) is None
                    && self.2.update_error(items[2]) is None
                    && self.3.update_error(items[3]) is None
                    && self.4.update_error(items[4]) is None
                    && self.5.update_error(items[5]) is None
                    && self.6.update_error(items[6]) is None
                    && self.7.update_error(items[7]) is None
                    && self.8.update_error(items[8]) is None
                    && self.9.update_error(items[9]) is None
                    && self.10.update_error(items[10]) is None {
                    self.11.updates_to(items[11], out.11)
                } else {
                    out.11 == self.11
                }
                &&& if self.0.update_error(items[0]) is None
                    && self.1.update_error(items[1]) is None
                    && self.2.update_error(items[2]) is None
                    && self.3.update_error(items[3]) is None
                    && self.4.update_error(items[4]) is None
                    && self.5.update_error(items[5]) is None
                    && self.6.update_error(items[6]) is None
                    && self.7.update_error(items[7]) is None
                    && self.8.update_error(items[8]) is None
                    && self.9.update_error(items[9]) is None
                    && self.10.update_error(items[10]) is None
                    && self.11.update_error(items[11]) is None {
                    self.12.updates_to(items[12], out.12)
                } else {
                    out.12 == self.12
                }
                &&& if self.0.update_error(items[0]) is None
                    && self.1.update_error(items[1]) is None
                    && self.2.update_error(items[2]) is None
                    && self.3.update_error(items[3]) is None
                    && self.4.update_error(items[4]) is None
                    && self.5.update_error(items[5]) is None
                    && self.6.update_error(items[6]) is None
                    && self.7.update_error(items[7]) is None
                    && self.8.update_error(items[8]) is None
                    && self.9.update_error(items[9]) is None
                    && self.10.update_error(items[10]) is None
                    && self.11.update_error(items[11]) is None
                    && self.12.update_error(items[12]) is None {
                    self.13.updates_to(items[13], out.13)
                } else {
                    out.13 == self.13
                }
            }
        } else {
            out == *self
        }
    }

    fn update(&mut self, val: &Intermediate) -> (r: Result<(), Error>) {
        let items = match array_of_at_least(val, 14) {
            Ok(items) => items,
            Err(e) => {
                return Err(e);
            },
        };
        match self.0.update(&items[0]) {
            Ok(_) => {},
            Err(e) => {
                return Err(e);
            },
        }
        match self.1.update(&items[1]) {
            Ok(_) => {},
            Err(e) => {
                return Err(e);
            },
        }
        match self.2.update(&items[2]) {
            Ok(_) => {},
            Err(e) => {
                return Err(e);
            },
        }
        match self.3.update(&items[3]) {
            Ok(_) => {},
            Err(e) => {
                return Err(e);
            },
        }
        match self.4.update(&items[4]) {
            Ok(_) => {},
            Err(e) => {
                return Err(e);
            },
        }
        match self.5.update(&items[5]) {
            Ok(_) => {},
            Err(e) => {
                return Err(e);
            },
        }
        match self.6.update(&items[6]) {
            Ok(_) => {},
            Err(e) => {
                return Err(e);
            },
        }
        match self.7.update(&items[7]) {
            Ok(_) => {},
            Err(e) => {
                return Err(e);
            },
        }
        match self.8.update(&items[8]) {
            Ok(_) => {},
            Err(e) => {
                return Err(e);
            },
        }
        match self.9.update(&items[9]) {
            Ok(_) => {},
            Err(e) => {
                return Err(e);
            },
        }
        match self.10.update(&items[10]) {
            Ok(_) => {},
            Err(e) => {
                return Err(e);
            },
        }
        match self.11.update(&items[11]) {
            Ok(_) => {},
            Err(e) => {
                return Err(e);
            },
        }
        match self.12.update(&items[12]) {
            Ok(_) => {},
            Err(e) => {
                return Err(e);
            },
        }
        match self.13.update(&items[13]) {
            Ok(_) => {},
            Err(e) => {
                return Err(e);
            },
        }
        Ok(())
    }
}

impl<T0: RoundTrip, T1: RoundTrip, T2: RoundTrip, T3: RoundTrip, T4: RoundTrip, T5: RoundTrip, T6: RoundTrip, T7: RoundTrip, T8: RoundTrip, T9: RoundTrip, T10: RoundTrip, T11: RoundTrip, T12: RoundTrip, T13: RoundTrip> RoundTrip for (T0, T1, T2, T3, T4, T5, T6, T7, T8, T9, T10, T11, T12, T13,) {
    open spec fn lossless(&self) -> bool {
        self.0.lossless()
            && self.1.lossless()
            && self.2.lossless()
            && self.3.lossless()
            && self.4.lossless()
            && self.5.lossless()
            && self.6.lossless()
            && self.7.lossless()
            && self.8.lossless()
            && self.9.lossless()
            && self.10.lossless()
            && self.11.lossless()
            && self.12.lossless()
            && self.13.lossless()
    }

    proof fn round_trip(&self) {
        self.0.round_trip();
        self.1.round_trip();
        self.2.round_trip();
        self.3.round_trip();
        self.4.round_trip();
        self.5.round_trip();
        self.6.round_trip();
        self.7.round_trip();
        self.8.round_trip();
        self.9.round_trip();
        self.10.round_trip();
        self.11.round_trip();
        self.12.round_trip();
        self.13.round_trip();
    }
}

impl<T0, T1, T2, T3, T4, T5, T6, T7, T8, T9, T10, T11, T12, T13, T14> Serialize for (T0, T1, T2, T3, T4, T5, T6, T7, T8, T9, T10, T11, T12, T13, T14,) where T0: Serialize, T1: Serialize, T2: Serialize, T3: Serialize, T4: Serialize, T5: Serialize, T6: Serialize, T7: Serialize, T8: Serialize, T9: Serialize, T10: Serialize, T11: Serialize, T12: Serialize, T13: Serialize, T14: Serialize {
    open spec fn serialized(&self) -> Result<Value, ErrorView> {
        match self.0.serialized() {
            Err(e) => Err(e),
            Ok(v0) => 
            match self.1.serialized() {
                Err(e) => Err(e),
                Ok(v1) => 
                match self.2.serialized() {
                    Err(e) => Err(e),
                    Ok(v2) => 
                    match self.3.serialized() {
                        Err(e) => Err(e),
                        Ok(v3) => 
                        match self.4.serialized() {
                            Err(e) => Err(e),
                            Ok(v4) => 
                            match self.5.serialized() {
                                Err(e) => Err(e),
                                Ok(v5) => 
                                match self.6.serialized() {
                                    Err(e) => Err(e),
                                    Ok(v6) => 
                                    match self.7.serialized() {
                                        Err(e) => Err(e),
                                        Ok(v7) => 
                                        match self.8.serialized() {
                                            Err(e) => Err(e),
                                            Ok(v8) => 
                                            match self.9.serialized() {
                                                Err(e) => Err(e),
                                                Ok(v9) => 
                                                match self.10.serialized() {
                                                    Err(e) => Err(e),
                                                    Ok(v10) => 
                                                    match self.11.serialized() {
                                                        Err(e) => Err(e),
                                                        Ok(v11) => 
                                                        match self.12.serialized() {
                                                            Err(e) => Err(e),
                                                            Ok(v12) => 
                                                            match self.13.serialized() {
                                                                Err(e) => Err(e),
                                                                Ok(v13) => 
                                                                match self.14.serialized() {
                                                                    Err(e) => Err(e),
                                                                    Ok(v14) => Ok(Value::Array(seq![v0, v1, v2, v3, v4, v5, v6, v7, v8, v9, v10, v11, v12, v13, v14])),
                                                                },
                                                            },
                                                        },
                                                    },
                                                },
                                            },
                                        },
                                    },
                                },
                            },
                        },
                    },
                },
            },
        }
    }

    fn serialize(&self) -> (r: Result<Intermediate, Error>) {
        let v0 = self.0.serialize()?;
        let v1 = self.1.serialize()?;
        let v2 = self.2.serialize()?;
        let v3 = self.3.serialize()?;
        let v4 = self.4.serialize()?;
        let v5 = self.5.serialize()?;
        let v6 = self.6.serialize()?;
        let v7 = self.7.serialize()?;
        let v8 = self.8.serialize()?;
        let v9 = self.9.serialize()?;
        let v10 = self.10.serialize()?;
        let v11 = self.11.serialize()?;
        let v12 = self.12.serialize()?;
        let v13 = self.13.serialize()?;
        let v14 = self.14.serialize()?;
        let ghost values = seq![v0@, v1@, v2@, v3@, v4@, v5@, v6@, v7@, v8@, v9@, v10@, v11@, v12@, v13@, v14@];
        let items = vec![v0, v1, v2, v3, v4, v5, v6, v7, v8, v9, v10, v11, v12, v13, v14];
        proof {
            lemma_values_of(items@);
            assert(values_of(items@) =~= values);
        }
        Ok(Intermediate::Array(items))
    }
}

impl<T0, T1, T2, T3, T4, T5, T6, T7, T8, T9, T10, T11, T12, T13, T14> Deserialize for (T0, T1, T2, T3, T4, T5, T6, T7, T8, T9, T10, T11, T12, T13, T14,) where T0: Deserialize, T1: Deserialize, T2: Deserialize, T3: Deserialize, T4: Deserialize, T5: Deserialize, T6: Deserialize, T7: Deserialize, T8: Deserialize, T9: Deserialize, T10: Deserialize, T11: Deserialize, T12: Deserialize, T13: Deserialize, T14: Deserialize {
    open spec fn deserialize_error(val: Value) -> Option<ErrorView> {
        match val {
            Value::Array(items) => if items.len() < 15 {
                Some(ErrorView::InvalidValue(array_of_length(15)))
            } else {
                match T0::deserialize_error(items[0]) {
                    Some(e) => Some(e),
                    None => 
                    match T1::deserialize_error(items[1]) {
                        Some(e) => Some(e),
                        None => 
                        match T2::deserialize_error(items[2]) {
                            Some(e) => Some(e),
                            None => 
                            match T3::deserialize_error(items[3]) {
                                Some(e) => Some(e),
                                None => 
                                match T4::deserialize_error(items[4]) {
                                    Some(e) => Some(e),
                                    None => 
                                    match T5::deserialize_error(items[5]) {
                                        Some(e) => Some(e),
                                        None => 
                                        match T6::deserialize_error(items[6]) {
                                            Some(e) => Some(e),
                                            None => 
                                            match T7::deserialize_error(items[7]) {
                                                Some(e) => Some(e),
                                                None => 
                                                match T8::deserialize_error(items[8]) {
                                                    Some(e) => Some(e),
                                                    None => 
                                                    match T9::deserialize_error(items[9]) {
                                                        Some(e) => Some(e),
                                                        None => 
                                                        match T10::deserialize_error(items[10]) {
                                                            Some(e) => Some(e),
                                                            None => 
                                                            match T11::deserialize_error(items[11]) {
                                                                Some(e) => Some(e),
                                                                None => 
                                                                match T12::deserialize_error(items[12]) {
                                                                    Some(e) => Some(e),
                                                                    None => 
                                                                    match T13::deserialize_error(items[13]) {
                                                                        Some(e) => Some(e),
                                                                        None => 
                                                                        T14::deserialize_error(items[14])
                                                                    },
                                                                },
                                                            },
                                                        },
                                                    },
                                                },
                                            },
                                        },
                                    },
                                },
                            },
                        },
                    },
                }
            },
            _ => Some(ErrorView::InvalidValue(array_of_length(15))),
        }
    }

    open spec fn deserializes_to(val: Value, out: Self) -> bool {
        val is Array && val->Array_0.len() >= 15
            && T0::deserializes_to(val->Array_0[0], out.0)
            && T1::deserializes_to(val->Array_0[1], out.1)
            && T2::deserializes_to(val->Array_0[2], out.2)
            && T3::deserializes_to(val->Array_0[3], out.3)
            && T4::deserializes_to(val->Array_0[4], out.4)
            && T5::deserializes_to(val->Array_0[5], out.5)
            && T6::deserializes_to(val->Array_0[6], out.6)
            && T7::deserializes_to(val->Array_0[7], out.7)
            && T8::deserializes_to(val->Array_0[8], out.8)
            && T9::deserializes_to(val->Array_0[9], out.9)
            && T10::deserializes_to(val->Array_0[10], out.10)
            && T11::deserializes_to(val->Array_0[11], out.11)
            && T12::deserializes_to(val->Array_0[12], out.12)
            && T13::deserializes_to(val->Array_0[13], out.13)
            && T14::deserializes_to(val->Array_0[14], out.14)
    }

    fn deserialize(val: &Intermediate) -> (r: Result<Self, Error>) {
        let items = match array_of_at_least(val, 15) {
            Ok(items) => items,
            Err(e) => {
                return Err(e);
            },
        };
        let v0 = match T0::deserialize(&items[0]) {
            Ok(v) => v,
            Err(e) => {
                return Err(e);
            },
        };
        let v1 = match T1::deserialize(&items[1]) {
            Ok(v) => v,
            Err(e) => {
                return Err(e);
            },
        };
        let v2 = match T2::deserialize(&items[2]) {
            Ok(v) => v,
            Err(e) => {
                return Err(e);
            },
        };
        let v3 = match T3::deserialize(&items[3]) {
            Ok(v) => v,
            Err(e) => {
                return Err(e);
            },
        };
        let v4 = match T4::deserialize(&items[4]) {
            Ok(v) => v,
            Err(e) => {
                return Err(e);
            },
        };
        let v5 = match T5::deserialize(&items[5]) {
            Ok(v) => v,
            Err(e) => {
                return Err(e);
            },
        };
        let v6 = match T6::deserialize(&items[6]) {
            Ok(v) => v,
            Err(e) => {
                return Err(e);
            },
        };
        let v7 = match T7::deserialize(&items[7]) {
            Ok(v) => v,
            Err(e) => {
                return Err(e);
            },
        };
        let v8 = match T8::deserialize(&items[8]) {
            Ok(v) => v,
            Err(e) => {
                return Err(e);
            },
        };
        let v9 = match T9::deserialize(&items[9]) {
            Ok(v) => v,
            Err(e) => {
                return Err(e);
            },
        };
        let v10 = match T10::deserialize(&items[10]) {
            Ok(v) => v,
            Err(e) => {
                return Err(e);
            },
        };
        let v11 = match T11::deserialize(&items[11]) {
            Ok(v) => v,
            Err(e) => {
                return Err(e);
            },
        };
        let v12 = match T12::deserialize(&items[12]) {
            Ok(v) => v,
            Err(e) => {
                return Err(e);
            },
        };
        let v13 = match T13::deserialize(&items[13]) {
            Ok(v) => v,
            Err(e) => {
                return Err(e);
            },
        };
        let v14 = match T14::deserialize(&items[14]) {
            Ok(v) => v,
            Err(e) => {
                return Err(e);
            },
        };
        Ok((v0, v1, v2, v3, v4, v5, v6, v7, v8, v9, v10, v11, v12, v13, v14,))
    }
}

impl<T0, T1, T2, T3, T4, T5, T6, T7, T8, T9, T10, T11, T12, T13, T14> Update for (T0, T1, T2, T3, T4, T5, T6, T7, T8, T9, T10, T11, T12, T13, T14,) where T0: Update, T1: Update, T2: Update, T3: Update, T4: Update, T5: Update, T6: Update, T7: Update, T8: Update, T9: Update, T10: Update, T11: Update, T12: Update, T13: Update, T14: Update {
    open spec fn update_error(&self, val: Value) -> Option<ErrorView> {
        match val {
            Value::Array(items) => if items.len() < 15 {
                Some(ErrorView::InvalidValue(array_of_length(15)))
            } else {
                match self.0.update_error(items[0]) {
                    Some(e) => Some(e),
                    None => 
                    match self.1.update_error(items[1]) {
                        Some(e) => Some(e),
                        None => 
                        match self.2.update_error(items[2]) {
                            Some(e) => Some(e),
                            None => 
                            match self.3.update_error(items[3]) {
                                Some(e) => Some(e),
                                None => 
                                match self.4.update_error(items[4]) {
                                    Some(e) => Some(e),
                                    None => 
                                    match self.5.update_error(items[5]) {
                                        Some(e) => Some(e),
                                        None => 
                                        match self.6.update_error(items[6]) {
                                            Some(e) => Some(e),
                                            None => 
                                            match self.7.update_error(items[7]) {
                                                Some(e) => Some(e),
                                                None => 
                                                match self.8.update_error(items[8]) {
                                                    Some(e) => Some(e),
                                                    None => 
                                                    match self.9.update_error(items[9]) {
                                                        Some(e) => Some(e),
                                                        None => 
                                                        match self.10.update_error(items[10]) {
                                                            Some(e) => Some(e),
                                                            None => 
                                                            match self.11.update_error(items[11]) {
                                                                Some(e) => Some(e),
                                                                None => 
                                                                match self.12.update_error(items[12]) {
                                                                    Some(e) => Some(e),
                                                                    None => 
                                                                    match self.13.update_error(items[13]) {
                                                                        Some(e) => Some(e),
                                                                        None => 
                                                                        self.14.update_error(items[14])
                                                                    },
                                                                },
                                                            },
                                                        },
                                                    },
                                                },
                                            },
                                        },
                                    },
                                },
                            },
                        },
                    },
                }
            },
            _ => Some(ErrorView::InvalidValue(array_of_length(15))),
        }
    }

    open spec fn updates_to(&self, val: Value, out: Self) -> bool {
        if val is Array && val->Array_0.len() >= 15 {
            let items = val->Array_0;
            {
                &&& self.0.updates_to(items[0], out.0)
                &&& if self.0.update_error(items[0]) is None {
                    self.1.updates_to(items[1], out.1)
                } else {
                    out.1 == self.1
                }
                &&& if self.0.update_error(items[0]) is None
                    && self.1.update_error(items[1]) is None {
                    self.2.updates_to(items[2], out.2)
                } else {
                    out.2 == self.2
                }
                &&& if self.0.update_error(items[0]) is None
                    && self.1.update_error(items[1]) is None
                    && self.2.update_error(items[2]) is None {
                    self.3.updates_to(items[3], out.3)
                } else {
                    out.3 == self.3
                }
                &&& if self.0.update_error(items[0]) is None
                    && self.1.update_error(items[1]) is None
                    && self.2.update_error(items[2]) is None
                    && self.3.update_error(items[3]) is None {
                    self.4.updates_to(items[4], out.4)
                } else {
                    out.4 == self.4
                }
                &&& if self.0.update_error(items[0]) is None
                    && self.1.update_error(items[1]) is None
                    && self.2.update_error(items[2]) is None
                    && self.3.update_error(items[3]) is None
                    && self.4.update_error(items[4]) is None {
                    self.5.updates_to(items[5], out.5)
                } else {
                    out.5 == self.5
                }
                &&& if self.0.update_error(items[0]) is None
                    && self.1.update_error(items[1]) is None
                    && self.2.update_error(items[2]) is None
                    && self.3.update_error(items[3]) is None
                    && self.4.update_error(items[4]) is None
                    && self.5.update_error(items[5]) is None {
                    self.6.updates_to(items[6], out.6)
                } else {
                    out.6 == self.6
                }
                &&& if self.0.update_error(items[0]) is None
                    && self.1.update_error(items[1]) is None
                    && self.2.update_error(items[2]) is None
                    && self.3.update_error(items[3]) is None
                    && self.4.update_error(items[4]) is None
                    && self.5.update_error(items[5]) is None
                    && self.6.update_error(items[6]) is None {
                    self.7.updates_to(items[7], out.7)
                } else {
                    out.7 == self.7
                }
                &&& if self.0.update_error(items[0]) is None
                    && self.1.update_error(items[1]) is None
                    && self.2.update_error(items[2]) is None
                    && self.3.update_error(items[3]) is None
                    && self.4.update_error(items[4]) is None
                    && self.5.update_error(items[5]) is None
                    && self.6.update_error(items[6]) is None
                    && self.7.update_error(items[7]) is None {
                    self.8.updates_to(items[8], out.8)
                } else {
                    out.8 == self.8
                }
                &&& if self.0.update_error(items[0]) is None
                    && self.1.update_error(items[1]) is None
                    && self.2.update_error(items[2]) is None
                    && self.3.update_error(items[3]) is None
                    && self.4.update_error(items[4]) is None
                    && self.5.update_error(items[5]) is None
                    && self.6.update_error(items[6]) is None
                    && self.7.update_error(items[7]) is None
                    && self.8.update_error(items[8]) is None {
                    self.9.updates_to(items[9], out.9)
                } else {
                    out.9 == self.9
                }
                &&& if self.0.update_error(items[0]) is None
                    && self.1.update_error(items[1]) is None
                    && self.2.update_error(items[2]) is None
                    && self.3.update_error(items[3]) is None
                    && self.4.update_error(items[4]) is None
                    && self.5.update_error(items[5]) is None
                    && self.6.update_error(items[6]) is None
                    && self.7.update_error(items[7]) is None
                    && self.8.update_error(items[8]) is None
                    && self.9.update_error(items[9]) is None {
                    self.10.updates_to(items[10], out.10)
                } else {
                    out.10 == self.10
                }
                &&& if self.0.update_error(items[0]) is None
                    && self.1.update_error(items[1]) is None
                    && self.2.update_error(items[2]) is None
                    && self.3.update_error(items[3]) is None
                    && self.4.update_error(items[4]) is None
                    && self.5.update_error(items[5]) is None
                    && self.6.update_error(items[6]) is None
                    && self.7.update_error(items[7]) is None
                    && self.8.update_error(items[8]) is None
                    && self.9.update_error(items[9]) is None
                    && self.10.update_error(items[10]) is None {
                    self.11.updates_to(items[11], out.11)
                } else {
                    out.11 == self.11
                }
                &&& if self.0.update_error(items[0]) is None
                    && self.1.update_error(items[1]) is None
                    && self.2.update_error(items[2]) is None
                    && self.3.update_error(items[3]) is None
                    && self.4.update_error(items[4]) is None
                    && self.5.update_error(items[5]) is None
                    && self.6.update_error(items[6]) is None
                    && self.7.update_error(items[7]) is None
                    && self.8.update_error(items[8]) is None
                    && self.9.update_error(items[9]) is None
                    && self.10.update_error(items[10]) is None
                    && self.11.update_error(items[11]) is None {
                    self.12.updates_to(items[12], out.12)
                } else {
                    out.12 == self.12
                }
                &&& if self.0.update_error(items[0]) is None
                    && self.1.update_error(items[1]) is None
                    && self.2.update_error(items[2]) is None
                    && self.3.update_error(items[3]) is None
                    && self.4.update_error(items[4]) is None
                    && self.5.update_error(items[5]) is None
                    && self.6.update_error(items[6]) is None
                    && self.7.update_error(items[7]) is None
                    && self.8.update_error(items[8]) is None
                    && self.9.update_error(items[9]) is None
                    && self.10.update_error(items[10]) is None
                    && self.11.update_error(items[11]) is None
                    && self.12.update_error(items[12]) is None {
                    self.13.updates_to(items[13], out.13)
                } else {
                    out.13 == self.13
                }
                &&& if self.0.update_error(items[0]) is None
                    && self.1.update_error(items[1]) is None
                    && self.2.update_error(items[2]) is None
                    && self.3.update_error(items[3]) is None
                    && self.4.update_error(items[4]) is None
                    && self.5.update_error(items[5]) is None
                    && self.6.update_error(items[6]) is None
                    && self.7.update_error(items[7]) is None
                    && self.8.update_error(items[8]) is None
                    && self.9.update_error(items[9]) is None
                    && self.10.update_error(items[10]) is None
                    && self.11.update_error(items[11]) is None
                    && self.12.update_error(items[12]) is None
                    && self.13.update_error(items[13]) is None {
                    self.14.updates_to(items[14], out.14)
                } else {
                    out.14 == self.14
                }
            }
        } else {
            out == *self
        }
    }

    fn update(&mut self, val: &Intermediate) -> (r: Result<(), Error>) {
        let items = match array_of_at_least(val, 15) {
            Ok(items) => items,
            Err(e) => {
                return Err(e);
            },
        };
        match self.0.update(&items[0]) {
            Ok(_) => {},
            Err(e) => {
                return Err(e);
            },
        }
        match self.1.update(&items[1]) {
            Ok(_) => {},
            Err(e) => {
                return Err(e);
            },
        }
        match self.2.update(&items[2]) {
            Ok(_) => {},
            Err(e) => {
                return Err(e);
            },
        }
        match self.3.update(&items[3]) {
            Ok(_) => {},
            Err(e) => {
                return Err(e);
            },
        }
        match self.4.update(&items[4]) {
            Ok(_) => {},
            Err(e) => {
                return Err(e);
            },
        }
        match self.5.update(&items[5]) {
            Ok(_) => {},
            Err(e) => {
                return Err(e);
            },
        }
        match self.6.update(&items[6]) {
            Ok(_) => {},
            Err(e) => {
                return Err(e);
            },
        }
        match self.7.update(&items[7]) {
            Ok(_) => {},
            Err(e) => {
                return Err(e);
            },
        }
        match self.8.update(&items[8]) {
            Ok(_) => {},
            Err(e) => {
                return Err(e);
            },
        }
        match self.9.update(&items[9]) {
            Ok(_) => {},
            Err(e) => {
                return Err(e);
            },
        }
        match self.10.update(&items[10]) {
            Ok(_) => {},
            Err(e) => {
                return Err(e);
            },
        }
        match self.11.update(&items[11]) {
            Ok(_) => {},
            Err(e) => {
                return Err(e);
            },
        }
        match self.12.update(&items[12]) {
            Ok(_) => {},
            Err(e) => {
                return Err(e);
            },
        }
        match self.13.update(&items[13]) {
            Ok(_) => {},
            Err(e) => {
                return Err(e);
            },
        }
        match self.14.update(&items[14]) {
            Ok(_) => {},
            Err(e) => {
                return Err(e);
            },
        }
        Ok(())
    }
}

impl<T0: RoundTrip, T1: RoundTrip, T2: RoundTrip, T3: RoundTrip, T4: RoundTrip, T5: RoundTrip, T6: RoundTrip, T7: RoundTrip, T8: RoundTrip, T9: RoundTrip, T10: RoundTrip, T11: RoundTrip, T12: RoundTrip, T13: RoundTrip, T14: RoundTrip> RoundTrip for (T0, T1, T2, T3, T4, T5, T6, T7, T8, T9, T10, T11, T12, T13, T14,) {
    open spec fn lossless(&self) -> bool {
        self.0.lossless()
            && self.1.lossless()
            && self.2.lossless()
            && self.3.lossless()
            && self.4.lossless()
            && self.5.lossless()
            && self.6.lossless()
            && self.7.lossless()
            && self.8.lossless()
            && self.9.lossless()
            && self.10.lossless()
            && self.11.lossless()
            && self.12.lossless()
            && self.13.lossless()
            && self.14.lossless()
    }

    proof fn round_trip(&self) {
        self.0.round_trip();
        self.1.round_trip();
        self.2.round_trip();
        self.3.round_trip();
        self.4.round_trip();
        self.5.round_trip();
        self.6.round_trip();
        self.7.round_trip();
        self.8.round_trip();
        self.9.round_trip();
        self.10.round_trip();
        self.11.round_trip();
        self.12.round_trip();
        self.13.round_trip();
        self.14.round_trip();
    }
}

impl<T0, T1, T2, T3, T4, T5, T6, T7, T8, T9, T10, T11, T12, T13, T14, T15> Serialize for (T0, T1, T2, T3, T4, T5, T6, T7, T8, T9, T10, T11, T12, T13, T14, T15,) where T0: Serialize, T1: Serialize, T2: Serialize, T3: Serialize, T4: Serialize, T5: Serialize, T6: Serialize, T7: Serialize, T8: Serialize, T9: Serialize, T10: Serialize, T11: Serialize, T12: Serialize, T13: Serialize, T14: Serialize, T15: Serialize {
    open spec fn serialized(&self) -> Result<Value, ErrorView> {
        match self.0.serialized() {
            Err(e) => Err(e),
            Ok(v0) => 
            match self.1.serialized() {
                Err(e) => Err(e),
                Ok(v1) => 
                match self.2.serialized() {
                    Err(e) => Err(e),
                    Ok(v2) => 
                    match self.3.serialized() {
                        Err(e) => Err(e),
                        Ok(v3) => 
                        match self.4.serialized() {
                            Err(e) => Err(e),
                            Ok(v4) => 
                            match self.5.serialized() {
                                Err(e) => Err(e),
                                Ok(v5) => 
                                match self.6.serialized() {
                                    Err(e) => Err(e),
                                    Ok(v6) => 
                                    match self.7.serialized() {
                                        Err(e) => Err(e),
                                        Ok(v7) => 
                                        match self.8.serialized() {
                                            Err(e) => Err(e),
                                            Ok(v8) => 
                                            match self.9.serialized() {
                                                Err(e) => Err(e),
                                                Ok(v9) => 
                                                match self.10.serialized() {
                                                    Err(e) => Err(e),
                                                    Ok(v10) => 
                                                    match self.11.serialized() {
                                                        Err(e) => Err(e),
                                                        Ok(v11) => 
                                                        match self.12.serialized() {
                                                            Err(e) => Err(e),
                                                            Ok(v12) => 
                                                            match self.13.serialized() {
                                                                Err(e) => Err(e),
                                                                Ok(v13) => 
                                                                match self.14.serialized() {
                                                                    Err(e) => Err(e),
                                                                    Ok(v14) => 
                                                                    match self.15.serialized() {
                                                                        Err(e) => Err(e),
                                                                        Ok(v15) => Ok(Value::Array(seq![v0, v1, v2, v3, v4, v5, v6, v7, v8, v9, v10, v11, v12, v13, v14, v15])),
                                                                    },
                                                                },
                                                            },
                                                        },
                                                    },
                                                },
                                            },
                                        },
                                    },
                                },
                            },
                        },
                    },
                },
            },
        }
    }

    fn serialize(&self) -> (r: Result<Intermediate, Error>) {
        let v0 = self.0.serialize()?;
        let v1 = self.1.serialize()?;
        let v2 = self.2.serialize()?;
        let v3 = self.3.serialize()?;
        let v4 = self.4.serialize()?;
        let v5 = self.5.serialize()?;
        let v6 = self.6.serialize()?;
        let v7 = self.7.serialize()?;
        let v8 = self.8.serialize()?;
        let v9 = self.9.serialize()?;
        let v10 = self.10.serialize()?;
        let v11 = self.11.serialize()?;
        let v12 = self.12.serialize()?;
        let v13 = self.13.serialize()?;
        let v14 = self.14.serialize()?;
        let v15 = self.15.serialize()?;
        let ghost values = seq![v0@, v1@, v2@, v3@, v4@, v5@, v6@, v7@, v8@, v9@, v10@, v11@, v12@, v13@, v14@, v15@];
        let items = vec![v0, v1, v2, v3, v4, v5, v6, v7, v8, v9, v10, v11, v12, v13, v14, v15];
        proof {
            lemma_values_of(items@);
            assert(values_of(items@) =~= values);
        }
        Ok(Intermediate::Array(items))
    }
}

impl<T0, T1, T2, T3, T4, T5, T6, T7, T8, T9, T10, T11, T12, T13, T14, T15> Deserialize for (T0, T1, T2, T3, T4, T5, T6, T7, T8, T9, T10, T11, T12, T13, T14, T15,) where T0: Deserialize, T1: Deserialize, T2: Deserialize, T3: Deserialize, T4: Deserialize, T5: Deserialize, T6: Deserialize, T7: Deserialize, T8: Deserialize, T9: Deserialize, T10: Deserialize, T11: Deserialize, T12: Deserialize, T13: Deserialize, T14: Deserialize, T15: Deserialize {
    open spec fn deserialize_error(val: Value) -> Option<ErrorView> {
        match val {
            Value::Array(items) => if items.len() < 16 {
                Some(ErrorView::InvalidValue(array_of_length(16)))
            } else {
                match T0::deserialize_error(items[0]) {
                    Some(e) => Some(e),
                    None => 
                    match T1::deserialize_error(items[1]) {
                        Some(e) => Some(e),
                        None => 
                        match T2::deserialize_error(items[2]) {
                            Some(e) => Some(e),
                            None => 
                            match T3::deserialize_error(items[3]) {
                                Some(e) => Some(e),
                                None => 
                                match T4::deserialize_error(items[4]) {
                                    Some(e) => Some(e),
                                    None => 
                                    match T5::deserialize_error(items[5]) {
                                        Some(e) => Some(e),
                                        None => 
                                        match T6::deserialize_error(items[6]) {
                                            Some(e) => Some(e),
                                            None => 
                                            match T7::deserialize_error(items[7]) {
                                                Some(e) => Some(e),
                                                None => 
                                                match T8::deserialize_error(items[8]) {
                                                    Some(e) => Some(e),
                                                    None => 
                                                    match T9::deserialize_error(items[9]) {
                                                        Some(e) => Some(e),
                                                        None => 
                                                        match T10::deserialize_error(items[10]) {
                                                            Some(e) => Some(e),
                                                            None => 
                                                            match T11::deserialize_error(items[11]) {
                                                                Some(e) => Some(e),
                                                                None => 
                                                                match T12::deserialize_error(items[12]) {
                                                                    Some(e) => Some(e),
                                                                    None => 
                                                                    match T13::deserialize_error(items[13]) {
                                                                        Some(e) => Some(e),
                                                                        None => 
                                                                        match T14::deserialize_error(items[14]) {
                                                                            Some(e) => Some(e),
                                                                            None => 
                                                                            T15::deserialize_error(items[15])
                                                                        },
                                                                    },
                                                                },
                                                            },
                                                        },
                                                    },
                                                },
                                            },
                                        },
                                    },
                                },
                            },
                        },
                    },
                }
            },
            _ => Some(ErrorView::InvalidValue(array_of_length(16))),
        }
    }

    open spec fn deserializes_to(val: Value, out: Self) -> bool {
        val is Array && val->Array_0.len() >= 16
            && T0::deserializes_to(val->Array_0[0], out.0)
            && T1::deserializes_to(val->Array_0[1], out.1)
            && T2::deserializes_to(val->Array_0[2], out.2)
            && T3::deserializes_to(val->Array_0[3], out.3)
            && T4::deserializes_to(val->Array_0[4], out.4)
            && T5::deserializes_to(val->Array_0[5], out.5)
            && T6::deserializes_to(val->Array_0[6], out.6)
            && T7::deserializes_to(val->Array_0[7], out.7)
            && T8::deserializes_to(val->Array_0[8], out.8)
            && T9::deserializes_to(val->Array_0[9], out.9)
            && T10::deserializes_to(val->Array_0[10], out.10)
            && T11::deserializes_to(val->Array_0[11], out.11)
            && T12::deserializes_to(val->Array_0[12], out.12)
            && T13::deserializes_to(val->Array_0[13], out.13)
            && T14::deserializes_to(val->Array_0[14], out.14)
            && T15::deserializes_to(val->Array_0[15], out.15)
    }

    fn deserialize(val: &Intermediate) -> (r: Result<Self, Error>) {
        let items = match array_of_at_least(val, 16) {
            Ok(items) => items,
            Err(e) => {
                return Err(e);
            },
        };
        let v0 = match T0::deserialize(&items[0]) {
            Ok(v) => v,
            Err(e) => {
                return Err(e);
            },
        };
        let v1 = match T1::deserialize(&items[1]) {
            Ok(v) => v,
            Err(e) => {
                return Err(e);
            },
        };
        let v2 = match T2::deserialize(&items[2]) {
            Ok(v) => v,
            Err(e) => {
                return Err(e);
            },
        };
        let v3 = match T3::deserialize(&items[3]) {
            Ok(v) => v,
            Err(e) => {
                return Err(e);
            },
        };
        let v4 = match T4::deserialize(&items[4]) {
            Ok(v) => v,
            Err(e) => {
                return Err(e);
            },
        };
        let v5 = match T5::deserialize(&items[5]) {
            Ok(v) => v,
            Err(e) => {
                return Err(e);
            },
        };
        let v6 = match T6::deserialize(&items[6]) {
            Ok(v) => v,
            Err(e) => {
                return Err(e);
            },
        };
        let v7 = match T7::deserialize(&items[7]) {
            Ok(v) => v,
            Err(e) => {
                return Err(e);
            },
        };
        let v8 = match T8::deserialize(&items[8]) {
            Ok(v) => v,
            Err(e) => {
                return Err(e);
            },
        };
        let v9 = match T9::deserialize(&items[9]) {
            Ok(v) => v,
            Err(e) => {
                return Err(e);
            },
        };
        let v10 = match T10::deserialize(&items[10]) {
            Ok(v) => v,
            Err(e) => {
                return Err(e);
            },
        };
        let v11 = match T11::deserialize(&items[11]) {
            Ok(v) => v,
            Err(e) => {
                return Err(e);
            },
        };
        let v12 = match T12::deserialize(&items[12]) {
            Ok(v) => v,
            Err(e) => {
                return Err(e);
            },
        };
        let v13 = match T13::deserialize(&items[13]) {
            Ok(v) => v,
            Err(e) => {
                return Err(e);
            },
        };
        let v14 = match T14::deserialize(&items[14]) {
            Ok(v) => v,
            Err(e) => {
                return Err(e);
            },
        };
        let v15 = match T15::deserialize(&items[15]) {
            Ok(v) => v,
            Err(e) => {
                return Err(e);
            },
        };
        Ok((v0, v1, v2, v3, v4, v5, v6, v7, v8, v9, v10, v11, v12, v13, v14, v15,))
    }
}

impl<T0, T1, T2, T3, T4, T5, T6, T7, T8, T9, T10, T11, T12, T13, T14, T15> Update for (T0, T1, T2, T3, T4, T5, T6, T7, T8, T9, T10, T11, T12, T13, T14, T15,) where T0: Update, T1: Update, T2: Update, T3: Update, T4: Update, T5: Update, T6: Update, T7: Update, T8: Update, T9: Update, T10: Update, T11: Update, T12: Update, T13: Update, T14: Update, T15: Update {
    open spec fn update_error(&self, val: Value) -> Option<ErrorView> {
        match val {
            Value::Array(items) => if items.len() < 16 {
                Some(ErrorView::InvalidValue(array_of_length(16)))
            } else {
                match self.0.update_error(items[0]) {
                    Some(e) => Some(e),
                    None => 
                    match self.1.update_error(items[1]) {
                        Some(e) => Some(e),
                        None => 
                        match self.2.update_error(items[2]) {
                            Some(e) => Some(e),
                            None => 
                            match self.3.update_error(items[3]) {
                                Some(e) => Some(e),
                                None => 
                                match self.4.update_error(items[4]) {
                                    Some(e) => Some(e),
                                    None => 
                                    match self.5.update_error(items[5]) {
                                        Some(e) => Some(e),
                                        None => 
                                        match self.6.update_error(items[6]) {
                                            Some(e) => Some(e),
                                            None => 
                                            match self.7.update_error(items[7]) {
                                                Some(e) => Some(e),
                                                None => 
                                                match self.8.update_error(items[8]) {
                                                    Some(e) => Some(e),
                                                    None => 
                                                    match self.9.update_error(items[9]) {
                                                        Some(e) => Some(e),
                                                        None => 
                                                        match self.10.update_error(items[10]) {
                                                            Some(e) => Some(e),
                                                            None => 
                                                            match self.11.update_error(items[11]) {
                                                                Some(e) => Some(e),
                                                                None => 
                                                                match self.12.update_error(items[12]) {
                                                                    Some(e) => Some(e),
                                                                    None => 
                                                                    match self.13.update_error(items[13]) {
                                                                        Some(e) => Some(e),
                                                                        None => 
                                                                        match self.14.update_error(items[14]) {
                                                                            Some(e) => Some(e),
                                                                            None => 
                                                                            self.15.update_error(items[15])
                                                                        },
                                                                    },
                                                                },
                                                            },
                                                        },
                                                    },
                                                },
                                            },
                                        },
                                    },
                                },
                            },
                        },
                    },
                }
            },
            _ => Some(ErrorView::InvalidValue(array_of_length(16))),
        }
    }

    open spec fn updates_to(&self, val: Value, out: Self) -> bool {
        if val is Array && val->Array_0.len() >= 16 {
            let items = val->Array_0;
            {
                &&& self.0.updates_to(items[0], out.0)
                &&& if self.0.update_error(items[0]) is None {
                    self.1.updates_to(items[1], out.1)
                } else {
                    out.1 == self.1
                }
                &&& if self.0.update_error(items[0]) is None
                    && self.1.update_error(items[1]) is None {
                    self.2.updates_to(items[2], out.2)
                } else {
                    out.2 == self.2
                }
                &&& if self.0.update_error(items[0]) is None
                    && self.1.update_error(items[1]) is None
                    && self.2.update_error(items[2]) is None {
                    self.3.updates_to(items[3], out.3)
                } else {
                    out.3 == self.3
                }
                &&& if self.0.update_error(items[0]) is None
                    && self.1.update_error(items[1]) is None
                    && self.2.update_error(items[2]) is None
                    && self.3.update_error(items[3]) is None {
                    self.4.updates_to(items[4], out.4)
                } else {
                    out.4 == self.4
                }
                &&& if self.0.update_error(items[0]) is None
                    && self.1.update_error(items[1]) is None
                    && self.2.update_error(items[2]) is None
                    && self.3.update_error(items[3]) is None
                    && self.4.update_error(items[4]) is None {
                    self.5.updates_to(items[5], out.5)
                } else {
                    out.5 == self.5
                }
                &&& if self.0.update_error(items[0]) is None
                    && self.1.update_error(items[1]) is None
                    && self.2.update_error(items[2]) is None
                    && self.3.update_error(items[3]) is None
                    && self.4.update_error(items[4]) is None
                    && self.5.update_error(items[5]) is None {
                    self.6.updates_to(items[6], out.6)
                } else {
                    out.6 == self.6
                }
                &&& if self.0.update_error(items[0]) is None
                    && self.1.update_error(items[1]) is None
                    && self.2.update_error(items[2]) is None
                    && self.3.update_error(items[3]) is None
                    && self.4.update_error(items[4]) is None
                    && self.5.update_error(items[5]) is None
                    && self.6.update_error(items[6]) is None {
                    self.7.updates_to(items[7], out.7)
                } else {
                    out.7 == self.7
                }
                &&& if self.0.update_error(items[0]) is None
                    && self.1.update_error(items[1]) is None
                    && self.2.update_error(items[2]) is None
                    && self.3.update_error(items[3]) is None
                    && self.4.update_error(items[4]) is None
                    && self.5.update_error(items[5]) is None
                    && self.6.update_error(items[6]) is None
                    && self.7.update_error(items[7]) is None {
                    self.8.updates_to(items[8], out.8)
                } else {
                    out.8 == self.8
                }
                &&& if self.0.update_error(items[0]) is None
                    && self.1.update_error(items[1]) is None
                    && self.2.update_error(items[2]) is None
                    && self.3.update_error(items[3]) is None
                    && self.4.update_error(items[4]) is None
                    && self.5.update_error(items[5]) is None
                    && self.6.update_error(items[6]) is None
                    && self.7.update_error(items[7]) is None
                    && self.8.update_error(items[8]) is None {
                    self.9.updates_to(items[9], out.9)
                } else {
                    out.9 == self.9
                }
                &&& if self.0.update_error(items[0]) is None
                    && self.1.update_error(items[1]) is None
                    && self.2.update_error(items[2]) is None
                    && self.3.update_error(items[3]) is None
                    && self.4.update_error(items[4]) is None
                    && self.5.update_error(items[5]) is None
                    && self.6.update_error(items[6]) is None
                    && self.7.update_error(items[7]) is None
                    && self.8.update_error(items[8]) is None
                    && self.9.update_error(items[9]) is None {
                    self.10.updates_to(items[10], out.10)
                } else {
                    out.10 == self.10
                }
                &&& if self.0.update_error(items[0]) is None
                    && self.1.update_error(items[1]) is None
                    && self.2.update_error(items[2]) is None
                    && self.3.update_error(items[3]) is None
                    && self.4.update_error(items[4]) is None
                    && self.5.update_error(items[5]) is None
                    && self.6.update_error(items[6]) is None
                    && self.7.update_error(items[7]) is None
                    && self.8.update_error(items[8]) is None
                    && self.9.update_error(items[9]) is None
                    && self.10.update_error(items[10]) is None {
                    self.11.updates_to(items[11], out.11)
                } else {
                    out.11 == self.11
                }
                &&& if self.0.update_error(items[0]) is None
                    && self.1.update_error(items[1]) is None
                    && self.2.update_error(items[2]) is None
                    && self.3.update_error(items[3]) is None
                    && self.4.update_error(items[4]) is None
                    && self.5.update_error(items[5]) is None
                    && self.6.update_error(items[6]) is None
                    && self.7.update_error(items[7]) is None
                    && self.8.update_error(items[8]) is None
                    && self.9.update_error(items[9]) is None
                    && self.10.update_error(items[10]) is None
                    && self.11.update_error(items[11]) is None {
                    self.12.updates_to(items[12], out.12)
                } else {
                    out.12 == self.12
                }
                &&& if self.0.update_error(items[0]) is None
                    && self.1.update_error(items[1]) is None
                    && self.2.update_error(items[2]) is None
                    && self.3.update_error(items[3]) is None
                    && self.4.update_error(items[4]) is None
                    && self.5.update_error(items[5]) is None
                    && self.6.update_error(items[6]) is None
                    && self.7.update_error(items[7]) is None
                    && self.8.update_error(items[8]) is None
                    && self.9.update_error(items[9]) is None
                    && self.10.update_error(items[10]) is None
                    && self.11.update_error(items[11]) is None
                    && self.12.update_error(items[12]) is None {
                    self.13.updates_to(items[13], out.13)
                } else {
                    out.13 == self.13
                }
                &&& if self.0.update_error(items[0]) is None
                    && self.1.update_error(items[1]) is None
                    && self.2.update_error(items[2]) is None
                    && self.3.update_error(items[3]) is None
                    && self.4.update_error(items[4]) is None
                    && self.5.update_error(items[5]) is None
                    && self.6.update_error(items[6]) is None
                    && self.7.update_error(items[7]) is None
                    && self.8.update_error(items[8]) is None
                    && self.9.update_error(items[9]) is None
                    && self.10.update_error(items[10]) is None
                    && self.11.update_error(items[11]) is None
                    && self.12.update_error(items[12]) is None
                    && self.13.update_error(items[13]) is None {
                    self.14.updates_to(items[14], out.14)
                } else {
                    out.14 == self.14
                }
                &&& if self.0.update_error(items[0]) is None
                    && self.1.update_error(items[1]) is None
                    && self.2.update_error(items[2]) is None
                    && self.3.update_error(items[3]) is None
                    && self.4.update_error(items[4]) is None
                    && self.5.update_error(items[5]) is None
                    && self.6.update_error(items[6]) is None
                    && self.7.update_error(items[7]) is None
                    && self.8.update_error(items[8]) is None
                    && self.9.update_error(items[9]) is None
                    && self.10.update_error(items[10]) is None
                    && self.11.update_error(items[11]) is None
                    && self.12.update_error(items[12]) is None
                    && self.13.update_error(items[13]) is None
                    && self.14.update_error(items[14]) is None {
                    self.15.updates_to(items[15], out.15)
                } else {
                    out.15 == self.15
                }
            }
        } else {
            out == *self
        }
    }

    fn update(&mut self, val: &Intermediate) -> (r: Result<(), Error>) {
        let items = match array_of_at_least(val, 16) {
            Ok(items) => items,
            Err(e) => {
                return Err(e);
            },
        };
        match self.0.update(&items[0]) {
            Ok(_) => {},
            Err(e) => {
                return Err(e);
            },
        }
        match self.1.update(&items[1]) {
            Ok(_) => {},
            Err(e) => {
                return Err(e);
            },
        }
        match self.2.update(&items[2]) {
            Ok(_) => {},
            Err(e) => {
                return Err(e);
            },
        }
        match self.3.update(&items[3]) {
            Ok(_) => {},
            Err(e) => {
                return Err(e);
            },
        }
        match self.4.update(&items[4]) {
            Ok(_) => {},
            Err(e) => {
                return Err(e);
            },
        }
        match self.5.update(&items[5]) {
            Ok(_) => {},
            Err(e) => {
                return Err(e);
            },
        }
        match self.6.update(&items[6]) {
            Ok(_) => {},
            Err(e) => {
                return Err(e);
            },
        }
        match self.7.update(&items[7]) {
            Ok(_) => {},
            Err(e) => {
                return Err(e);
            },
        }
        match self.8.update(&items[8]) {
            Ok(_) => {},
            Err(e) => {
                return Err(e);
            },
        }
        match self.9.update(&items[9]) {
            Ok(_) => {},
            Err(e) => {
                return Err(e);
            },
        }
        match self.10.update(&items[10]) {
            Ok(_) => {},
            Err(e) => {
                return Err(e);
            },
        }
        match self.11.update(&items[11]) {
            Ok(_) => {},
            Err(e) => {
                return Err(e);
            },
        }
        match self.12.update(&items[12]) {
            Ok(_) => {},
            Err(e) => {
                return Err(e);
            },
        }
        match self.13.update(&items[13]) {
            Ok(_) => {},
            Err(e) => {
                return Err(e);
            },
        }
        match self.14.update(&items[14]) {
            Ok(_) => {},
            Err(e) => {
                return Err(e);
            },
        }
        match self.15.update(&items[15]) {
            Ok(_) => {},
            Err(e) => {
                return Err(e);
            },
        }
        Ok(())
    }
}

impl<T0: RoundTrip, T1: RoundTrip, T2: RoundTrip, T3: RoundTrip, T4: RoundTrip, T5: RoundTrip, T6: RoundTrip, T7: RoundTrip, T8: RoundTrip, T9: RoundTrip, T10: RoundTrip, T11: RoundTrip, T12: RoundTrip, T13: RoundTrip, T14: RoundTrip, T15: RoundTrip> RoundTrip for (T0, T1, T2, T3, T4, T5, T6, T7, T8, T9, T10, T11, T12, T13, T14, T15,) {
    open spec fn lossless(&self) -> bool {
        self.0.lossless()
            && self.1.lossless()
            && self.2.lossless()
            && self.3.lossless()
            && self.4.lossless()
            && self.5.lossless()
            && self.6.lossless()
            && self.7.lossless()
            && self.8.lossless()
            && self.9.lossless()
            && self.10.lossless()
            && self.11.lossless()
            && self.12.lossless()
            && self.13.lossless()
            && self.14.lossless()
            && self.15.lossless()
    }

    proof fn round_trip(&self) {
        self.0.round_trip();
        self.1.round_trip();
        self.2.round_trip();
        self.3.round_trip();
        self.4.round_trip();
        self.5.round_trip();
        self.6.round_trip();
        self.7.round_trip();
        self.8.round_trip();
        self.9.round_trip();
        self.10.round_trip();
        self.11.round_trip();
        self.12.round_trip();
        self.13.round_trip();
        self.14.round_trip();
        self.15.round_trip();
    }
}

} // verus!
