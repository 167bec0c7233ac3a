//! Tuples show their components, in order.

use vstd::prelude::*;
use crate::data_description::DataDescription;
use crate::util::texts;
use crate::visualize::{describes, names, Visualize};

verus! {

/// The parts with `, ` between them.
pub open spec fn comma_separated(parts: Seq<Seq<char>>) -> Seq<char>
    decreases parts.len(),
{
    if parts.len() == 0 {
        Seq::empty()
    } else if parts.len() == 1 {
        parts[0]
    } else {
        comma_separated(parts.drop_last()) + ", "@ + parts.last()
    }
}

/// The name of the tuple type whose components have these names. A tuple of
/// one component is told from a bracketed type by a trailing comma.
pub open spec fn tuple_text(parts: Seq<Seq<char>>) -> Seq<char> {
    if parts.len() == 1 {
        "("@ + parts[0] + ",)"@
    } else {
        "("@ + comma_separated(parts) + ")"@
    }
}

/// The name of the tuple type whose components have these names.
fn tuple_name(parts: &Vec<String>) -> (name: String)
    ensures
        name@ == tuple_text(texts(parts@)),
{
    let mut name = String::from_str("(");
    if parts.len() == 1 {
        name.append(parts[0].as_str());
        name.append(",)");
        return name;
    }
    let ghost opening = name@;
    let mut i: usize = 0;
    while i < parts.len()
        invariant
            i <= parts.len(),
            name@ == opening + comma_separated(texts(parts@.take(i as int))),
        decreases parts.len() - i,
    {
        proof {
            assert(texts(parts@.take(i + 1)).drop_last() == texts(parts@.take(i as int)));
        }
        if i > 0 {
            name.append(", ");
        }
        name.append(parts[i].as_str());
        i += 1;
    }
    proof {
        assert(parts@.take(parts@.len() as int) == parts@);
    }
    name.append(")");
    name
}

impl<T0: Visualize> Visualize for (T0,) {
    fn type_string() -> (name: String)
        ensures
            exists|parts: Seq<Seq<char>>|
                {
                    &&& parts.len() == 1
                    &&& names::<T0>(parts[0])
                    &&& name@ == tuple_text(parts)
                },
    {
        let mut parts: Vec<String> = Vec::new();
        parts.push(T0::type_string());
        let name = tuple_name(&parts);
        proof {
            let shown = texts(parts@);
            assert(names::<T0>(shown[0]));
        }
        name
    }

    fn associated_data(&self) -> (nested: Option<Vec<DataDescription>>)
        ensures
            nested matches Some(each) && {
                &&& each.len() == 1
                &&& describes(&self.0, each[0])
            },
    {
        let mut each: Vec<DataDescription> = Vec::new();
        each.push(DataDescription::describe(&self.0));
        Some(each)
    }
}

impl<T0: Visualize, T1: Visualize> Visualize for (T0, T1) {
    fn type_string() -> (name: String)
        ensures
            exists|parts: Seq<Seq<char>>|
                {
                    &&& parts.len() == 2
                    &&& names::<T0>(parts[0])
                    &&& names::<T1>(parts[1])
                    &&& name@ == tuple_text(parts)
                },
    {
        let mut parts: Vec<String> = Vec::new();
        parts.push(T0::type_string());
        parts.push(T1::type_string());
        let name = tuple_name(&parts);
        proof {
            let shown = texts(parts@);
            assert(names::<T0>(shown[0]));
            assert(names::<T1>(shown[1]));
        }
        name
    }

    fn associated_data(&self) -> (nested: Option<Vec<DataDescription>>)
        ensures
            nested matches Some(each) && {
                &&& each.len() == 2
                &&& describes(&self.0, each[0])
                &&& describes(&self.1, each[1])
            },
    {
        let mut each: Vec<DataDescription> = Vec::new();
        each.push(DataDescription::describe(&self.0));
        each.push(DataDescription::describe(&self.1));
        Some(each)
    }
}

impl<T0: Visualize, T1: Visualize, T2: Visualize> Visualize for (T0, T1, T2) {
    fn type_string() -> (name: String)
        ensures
            exists|parts: Seq<Seq<char>>|
                {
                    &&& parts.len() == 3
                    &&& names::<T0>(parts[0])
                    &&& names::<T1>(parts[1])
                    &&& names::<T2>(parts[2])
                    &&& name@ == tuple_text(parts)
                },
    {
        let mut parts: Vec<String> = Vec::new();
        parts.push(T0::type_string());
        parts.push(T1::type_string());
        parts.push(T2::type_string());
        let name = tuple_name(&parts);
        proof {
            let shown = texts(parts@);
            assert(names::<T0>(shown[0]));
            assert(names::<T1>(shown[1]));
            assert(names::<T2>(shown[2]));
        }
        name
    }

    fn associated_data(&self) -> (nested: Option<Vec<DataDescription>>)
        ensures
            nested matches Some(each) && {
                &&& each.len() == 3
                &&& describes(&self.0, each[0])
                &&& describes(&self.1, each[1])
                &&& describes(&self.2, each[2])
            },
    {
        let mut each: Vec<DataDescription> = Vec::new();
        each.push(DataDescription::describe(&self.0));
        each.push(DataDescription::describe(&self.1));
        each.push(DataDescription::describe(&self.2));
        Some(each)
    }
}

impl<T0: Visualize, T1: Visualize, T2: Visualize, T3: Visualize> Visualize for (T0, T1, T2, T3) {
    fn type_string() -> (name: String)
        ensures
            exists|parts: Seq<Seq<char>>|
                {
                    &&& parts.len() == 4
                    &&& names::<T0>(parts[0])
                    &&& names::<T1>(parts[1])
                    &&& names::<T2>(parts[2])
                    &&& names::<T3>(parts[3])
                    &&& name@ == tuple_text(parts)
                },
    {
        let mut parts: Vec<String> = Vec::new();
        parts.push(T0::type_string());
        parts.push(T1::type_string());
        parts.push(T2::type_string());
        parts.push(T3::type_string());
        let name = tuple_name(&parts);
        proof {
            let shown = texts(parts@);
            assert(names::<T0>(shown[0]));
            assert(names::<T1>(shown[1]));
            assert(names::<T2>(shown[2]));
            assert(names::<T3>(shown[3]));
        }
        name
    }

    fn associated_data(&self) -> (nested: Option<Vec<DataDescription>>)
        ensures
            nested matches Some(each) && {
                &&& each.len() == 4
                &&& describes(&self.0, each[0])
                &&& describes(&self.1, each[1])
                &&& describes(&self.2, each[2])
                &&& describes(&self.3, each[3])
            },
    {
        let mut each: Vec<DataDescription> = Vec::new();
        each.push(DataDescription::describe(&self.0));
        each.push(DataDescription::describe(&self.1));
        each.push(DataDescription::describe(&self.2));
        each.push(DataDescription::describe(&self.3));
        Some(each)
    }
}

impl<
    T0: Visualize,
    T1: Visualize,
    T2: Visualize,
    T3: Visualize,
    T4: Visualize,
> Visualize for (
    T0,
    T1,
    T2,
    T3,
    T4,
) {
    fn type_string() -> (name: String)
        ensures
            exists|parts: Seq<Seq<char>>|
                {
                    &&& parts.len() == 5
                    &&& names::<T0>(parts[0])
                    &&& names::<T1>(parts[1])
                    &&& names::<T2>(parts[2])
                    &&& names::<T3>(parts[3])
                    &&& names::<T4>(parts[4])
                    &&& name@ == tuple_text(parts)
                },
    {
        let mut parts: Vec<String> = Vec::new();
        parts.push(T0::type_string());
        parts.push(T1::type_string());
        parts.push(T2::type_string());
        parts.push(T3::type_string());
        parts.push(T4::type_string());
        let name = tuple_name(&parts);
        proof {
            let shown = texts(parts@);
            assert(names::<T0>(shown[0]));
            assert(names::<T1>(shown[1]));
            assert(names::<T2>(shown[2]));
            assert(names::<T3>(shown[3]));
            assert(names::<T4>(shown[4]));
        }
        name
    }

    fn associated_data(&self) -> (nested: Option<Vec<DataDescription>>)
        ensures
            nested matches Some(each) && {
                &&& each.len() == 5
                &&& describes(&self.0, each[0])
                &&& describes(&self.1, each[1])
                &&& describes(&self.2, each[2])
                &&& describes(&self.3, each[3])
                &&& describes(&self.4, each[4])
            },
    {
        let mut each: Vec<DataDescription> = Vec::new();
        each.push(DataDescription::describe(&self.0));
        each.push(DataDescription::describe(&self.1));
        each.push(DataDescription::describe(&self.2));
        each.push(DataDescription::describe(&self.3));
        each.push(DataDescription::describe(&self.4));
        Some(each)
    }
}

impl<
    T0: Visualize,
    T1: Visualize,
    T2: Visualize,
    T3: Visualize,
    T4: Visualize,
    T5: Visualize,
> Visualize for (
    T0,
    T1,
    T2,
    T3,
    T4,
    T5,
) {
    fn type_string() -> (name: String)
        ensures
            exists|parts: Seq<Seq<char>>|
                {
                    &&& parts.len() == 6
                    &&& names::<T0>(parts[0])
                    &&& names::<T1>(parts[1])
                    &&& names::<T2>(parts[2])
                    &&& names::<T3>(parts[3])
                    &&& names::<T4>(parts[4])
                    &&& names::<T5>(parts[5])
                    &&& name@ == tuple_text(parts)
                },
    {
        let mut parts: Vec<String> = Vec::new();
        parts.push(T0::type_string());
        parts.push(T1::type_string());
        parts.push(T2::type_string());
        parts.push(T3::type_string());
        parts.push(T4::type_string());
        parts.push(T5::type_string());
        let name = tuple_name(&parts);
        proof {
            let shown = texts(parts@);
            assert(names::<T0>(shown[0]));
            assert(names::<T1>(shown[1]));
            assert(names::<T2>(shown[2]));
            assert(names::<T3>(shown[3]));
            assert(names::<T4>(shown[4]));
            assert(names::<T5>(shown[5]));
        }
        name
    }

    fn associated_data(&self) -> (nested: Option<Vec<DataDescription>>)
        ensures
            nested matches Some(each) && {
                &&& each.len() == 6
                &&& describes(&self.0, each[0])
                &&& describes(&self.1, each[1])
                &&& describes(&self.2, each[2])
                &&& describes(&self.3, each[3])
                &&& describes(&self.4, each[4])
                &&& describes(&self.5, each[5])
            },
    {
        let mut each: Vec<DataDescription> = Vec::new();
        each.push(DataDescription::describe(&self.0));
        each.push(DataDescription::describe(&self.1));
        each.push(DataDescription::describe(&self.2));
        each.push(DataDescription::describe(&self.3));
        each.push(DataDescription::describe(&self.4));
        each.push(DataDescription::describe(&self.5));
        Some(each)
    }
}

impl<
    T0: Visualize,
    T1: Visualize,
    T2: Visualize,
    T3: Visualize,
    T4: Visualize,
    T5: Visualize,
    T6: Visualize,
> Visualize for (
    T0,
    T1,
    T2,
    T3,
    T4,
    T5,
    T6,
) {
    fn type_string() -> (name: String)
        ensures
            exists|parts: Seq<Seq<char>>|
                {
                    &&& parts.len() == 7
                    &&& names::<T0>(parts[0])
                    &&& names::<T1>(parts[1])
                    &&& names::<T2>(parts[2])
                    &&& names::<T3>(parts[3])
                    &&& names::<T4>(parts[4])
                    &&& names::<T5>(parts[5])
                    &&& names::<T6>(parts[6])
                    &&& name@ == tuple_text(parts)
                },
    {
        let mut parts: Vec<String> = Vec::new();
        parts.push(T0::type_string());
        parts.push(T1::type_string());
        parts.push(T2::type_string());
        parts.push(T3::type_string());
        parts.push(T4::type_string());
        parts.push(T5::type_string());
        parts.push(T6::type_string());
        let name = tuple_name(&parts);
        proof {
            let shown = texts(parts@);
            assert(names::<T0>(shown[0]));
            assert(names::<T1>(shown[1]));
            assert(names::<T2>(shown[2]));
            assert(names::<T3>(shown[3]));
            assert(names::<T4>(shown[4]));
            assert(names::<T5>(shown[5]));
            assert(names::<T6>(shown[6]));
        }
        name
    }

    fn associated_data(&self) -> (nested: Option<Vec<DataDescription>>)
        ensures
            nested matches Some(each) && {
                &&& each.len() == 7
                &&& describes(&self.0, each[0])
                &&& describes(&self.1, each[1])
                &&& describes(&self.2, each[2])
                &&& describes(&self.3, each[3])
                &&& describes(&self.4, each[4])
                &&& describes(&self.5, each[5])
                &&& describes(&self.6, each[6])
            },
    {
        let mut each: Vec<DataDescription> = Vec::new();
        each.push(DataDescription::describe(&self.0));
        each.push(DataDescription::describe(&self.1));
        each.push(DataDescription::describe(&self.2));
        each.push(DataDescription::describe(&self.3));
        each.push(DataDescription::describe(&self.4));
        each.push(DataDescription::describe(&self.5));
        each.push(DataDescription::describe(&self.6));
        Some(each)
    }
}

impl<
    T0: Visualize,
    T1: Visualize,
    T2: Visualize,
    T3: Visualize,
    T4: Visualize,
    T5: Visualize,
    T6: Visualize,
    T7: Visualize,
> Visualize for (
    T0,
    T1,
    T2,
    T3,
    T4,
    T5,
    T6,
    T7,
) {
    fn type_string() -> (name: String)
        ensures
            exists|parts: Seq<Seq<char>>|
                {
                    &&& parts.len() == 8
                    &&& names::<T0>(parts[0])
                    &&& names::<T1>(parts[1])
                    &&& names::<T2>(parts[2])
                    &&& names::<T3>(parts[3])
                    &&& names::<T4>(parts[4])
                    &&& names::<T5>(parts[5])
                    &&& names::<T6>(parts[6])
                    &&& names::<T7>(parts[7])
                    &&& name@ == tuple_text(parts)
                },
    {
        let mut parts: Vec<String> = Vec::new();
        parts.push(T0::type_string());
        parts.push(T1::type_string());
        parts.push(T2::type_string());
        parts.push(T3::type_string());
        parts.push(T4::type_string());
        parts.push(T5::type_string());
        parts.push(T6::type_string());
        parts.push(T7::type_string());
        let name = tuple_name(&parts);
        proof {
            let shown = texts(parts@);
            assert(names::<T0>(shown[0]));
            assert(names::<T1>(shown[1]));
            assert(names::<T2>(shown[2]));
            assert(names::<T3>(shown[3]));
            assert(names::<T4>(shown[4]));
            assert(names::<T5>(shown[5]));
            assert(names::<T6>(shown[6]));
            assert(names::<T7>(shown[7]));
        }
        name
    }

    fn associated_data(&self) -> (nested: Option<Vec<DataDescription>>)
        ensures
            nested matches Some(each) && {
                &&& each.len() == 8
                &&& describes(&self.0, each[0])
                &&& describes(&self.1, each[1])
                &&& describes(&self.2, each[2])
                &&& describes(&self.3, each[3])
                &&& describes(&self.4, each[4])
                &&& describes(&self.5, each[5])
                &&& describes(&self.6, each[6])
                &&& describes(&self.7, each[7])
            },
    {
        let mut each: Vec<DataDescription> = Vec::new();
        each.push(DataDescription::describe(&self.0));
        each.push(DataDescription::describe(&self.1));
        each.push(DataDescription::describe(&self.2));
        each.push(DataDescription::describe(&self.3));
        each.push(DataDescription::describe(&self.4));
        each.push(DataDescription::describe(&self.5));
        each.push(DataDescription::describe(&self.6));
        each.push(DataDescription::describe(&self.7));
        Some(each)
    }
}

impl<
    T0: Visualize,
    T1: Visualize,
    T2: Visualize,
    T3: Visualize,
    T4: Visualize,
    T5: Visualize,
    T6: Visualize,
    T7: Visualize,
    T8: Visualize,
> Visualize for (
    T0,
    T1,
    T2,
    T3,
    T4,
    T5,
    T6,
    T7,
    T8,
) {
    fn type_string() -> (name: String)
        ensures
            exists|parts: Seq<Seq<char>>|
                {
                    &&& parts.len() == 9
                    &&& names::<T0>(parts[0])
                    &&& names::<T1>(parts[1])
                    &&& names::<T2>(parts[2])
                    &&& names::<T3>(parts[3])
                    &&& names::<T4>(parts[4])
                    &&& names::<T5>(parts[5])
                    &&& names::<T6>(parts[6])
                    &&& names::<T7>(parts[7])
                    &&& names::<T8>(parts[8])
                    &&& name@ == tuple_text(parts)
                },
    {
        let mut parts: Vec<String> = Vec::new();
        parts.push(T0::type_string());
        parts.push(T1::type_string());
        parts.push(T2::type_string());
        parts.push(T3::type_string());
        parts.push(T4::type_string());
        parts.push(T5::type_string());
        parts.push(T6::type_string());
        parts.push(T7::type_string());
        parts.push(T8::type_string());
        let name = tuple_name(&parts);
        proof {
            let shown = texts(parts@);
            assert(names::<T0>(shown[0]));
            assert(names::<T1>(shown[1]));
            assert(names::<T2>(shown[2]));
            assert(names::<T3>(shown[3]));
            assert(names::<T4>(shown[4]));
            assert(names::<T5>(shown[5]));
            assert(names::<T6>(shown[6]));
            assert(names::<T7>(shown[7]));
            assert(names::<T8>(shown[8]));
        }
        name
    }

    fn associated_data(&self) -> (nested: Option<Vec<DataDescription>>)
        ensures
            nested matches Some(each) && {
                &&& each.len() == 9
                &&& describes(&self.0, each[0])
                &&& describes(&self.1, each[1])
                &&& describes(&self.2, each[2])
                &&& describes(&self.3, each[3])
                &&& describes(&self.4, each[4])
                &&& describes(&self.5, each[5])
                &&& describes(&self.6, each[6])
                &&& describes(&self.7, each[7])
                &&& describes(&self.8, each[8])
            },
    {
        let mut each: Vec<DataDescription> = Vec::new();
        each.push(DataDescription::describe(&self.0));
        each.push(DataDescription::describe(&self.1));
        each.push(DataDescription::describe(&self.2));
        each.push(DataDescription::describe(&self.3));
        each.push(DataDescription::describe(&self.4));
        each.push(DataDescription::describe(&self.5));
        each.push(DataDescription::describe(&self.6));
        each.push(DataDescription::describe(&self.7));
        each.push(DataDescription::describe(&self.8));
        Some(each)
    }
}

impl<
    T0: Visualize,
    T1: Visualize,
    T2: Visualize,
    T3: Visualize,
    T4: Visualize,
    T5: Visualize,
    T6: Visualize,
    T7: Visualize,
    T8: Visualize,
    T9: Visualize,
> Visualize for (
    T0,
    T1,
    T2,
    T3,
    T4,
    T5,
    T6,
    T7,
    T8,
    T9,
) {
    fn type_string() -> (name: String)
        ensures
            exists|parts: Seq<Seq<char>>|
                {
                    &&& parts.len() == 10
                    &&& names::<T0>(parts[0])
                    &&& names::<T1>(parts[1])
                    &&& names::<T2>(parts[2])
                    &&& names::<T3>(parts[3])
                    &&& names::<T4>(parts[4])
                    &&& names::<T5>(parts[5])
                    &&& names::<T6>(parts[6])
                    &&& names::<T7>(parts[7])
                    &&& names::<T8>(parts[8])
                    &&& names::<T9>(parts[9])
                    &&& name@ == tuple_text(parts)
                },
    {
        let mut parts: Vec<String> = Vec::new();
        parts.push(T0::type_string());
        parts.push(T1::type_string());
        parts.push(T2::type_string());
        parts.push(T3::type_string());
        parts.push(T4::type_string());
        parts.push(T5::type_string());
        parts.push(T6::type_string());
        parts.push(T7::type_string());
        parts.push(T8::type_string());
        parts.push(T9::type_string());
        let name = tuple_name(&parts);
        proof {
            let shown = texts(parts@);
            assert(names::<T0>(shown[0]));
            assert(names::<T1>(shown[1]));
            assert(names::<T2>(shown[2]));
            assert(names::<T3>(shown[3]));
            assert(names::<T4>(shown[4]));
            assert(names::<T5>(shown[5]));
            assert(names::<T6>(shown[6]));
            assert(names::<T7>(shown[7]));
            assert(names::<T8>(shown[8]));
            assert(names::<T9>(shown[9]));
        }
        name
    }

    fn associated_data(&self) -> (nested: Option<Vec<DataDescription>>)
        ensures
            nested matches Some(each) && {
                &&& each.len() == 10
                &&& describes(&self.0, each[0])
                &&& describes(&self.1, each[1])
                &&& describes(&self.2, each[2])
                &&& describes(&self.3, each[3])
                &&& describes(&self.4, each[4])
                &&& describes(&self.5, each[5])
                &&& describes(&self.6, each[6])
                &&& describes(&self.7, each[7])
                &&& describes(&self.8, each[8])
                &&& describes(&self.9, each[9])
            },
    {
        let mut each: Vec<DataDescription> = Vec::new();
        each.push(DataDescription::describe(&self.0));
        each.push(DataDescription::describe(&self.1));
        each.push(DataDescription::describe(&self.2));
        each.push(DataDescription::describe(&self.3));
        each.push(DataDescription::describe(&self.4));
        each.push(DataDescription::describe(&self.5));
        each.push(DataDescription::describe(&self.6));
        each.push(DataDescription::describe(&self.7));
        each.push(DataDescription::describe(&self.8));
        each.push(DataDescription::describe(&self.9));
        Some(each)
    }
}

impl<
    T0: Visualize,
    T1: Visualize,
    T2: Visualize,
    T3: Visualize,
    T4: Visualize,
    T5: Visualize,
    T6: Visualize,
    T7: Visualize,
    T8: Visualize,
    T9: Visualize,
    T10: Visualize,
> Visualize for (
    T0,
    T1,
    T2,
    T3,
    T4,
    T5,
    T6,
    T7,
    T8,
    T9,
    T10,
) {
    fn type_string() -> (name: String)
        ensures
            exists|parts: Seq<Seq<char>>|
                {
                    &&& parts.len() == 11
                    &&& names::<T0>(parts[0])
                    &&& names::<T1>(parts[1])
                    &&& names::<T2>(parts[2])
                    &&& names::<T3>(parts[3])
                    &&& names::<T4>(parts[4])
                    &&& names::<T5>(parts[5])
                    &&& names::<T6>(parts[6])
                    &&& names::<T7>(parts[7])
                    &&& names::<T8>(parts[8])
                    &&& names::<T9>(parts[9])
                    &&& names::<T10>(parts[10])
                    &&& name@ == tuple_text(parts)
                },
    {
        let mut parts: Vec<String> = Vec::new();
        parts.push(T0::type_string());
        parts.push(T1::type_string());
        parts.push(T2::type_string());
        parts.push(T3::type_string());
        parts.push(T4::type_string());
        parts.push(T5::type_string());
        parts.push(T6::type_string());
        parts.push(T7::type_string());
        parts.push(T8::type_string());
        parts.push(T9::type_string());
        parts.push(T10::type_string());
        let name = tuple_name(&parts);
        proof {
            let shown = texts(parts@);
            assert(names::<T0>(shown[0]));
            assert(names::<T1>(shown[1]));
            assert(names::<T2>(shown[2]));
            assert(names::<T3>(shown[3]));
            assert(names::<T4>(shown[4]));
            assert(names::<T5>(shown[5]));
            assert(names::<T6>(shown[6]));
            assert(names::<T7>(shown[7]));
            assert(names::<T8>(shown[8]));
            assert(names::<T9>(shown[9]));
            assert(names::<T10>(shown[10]));
        }
        name
    }

    fn associated_data(&self) -> (nested: Option<Vec<DataDescription>>)
        ensures
            nested matches Some(each) && {
                &&& each.len() == 11
                &&& describes(&self.0, each[0])
                &&& describes(&self.1, each[1])
                &&& describes(&self.2, each[2])
                &&& describes(&self.3, each[3])
                &&& describes(&self.4, each[4])
                &&& describes(&self.5, each[5])
                &&& describes(&self.6, each[6])
                &&& describes(&self.7, each[7])
                &&& describes(&self.8, each[8])
                &&& describes(&self.9, each[9])
                &&& describes(&self.10, each[10])
            },
    {
        let mut each: Vec<DataDescription> = Vec::new();
        each.push(DataDescription::describe(&self.0));
        each.push(DataDescription::describe(&self.1));
        each.push(DataDescription::describe(&self.2));
        each.push(DataDescription::describe(&self.3));
        each.push(DataDescription::describe(&self.4));
        each.push(DataDescription::describe(&self.5));
        each.push(DataDescription::describe(&self.6));
        each.push(DataDescription::describe(&self.7));
        each.push(DataDescription::describe(&self.8));
        each.push(DataDescription::describe(&self.9));
        each.push(DataDescription::describe(&self.10));
        Some(each)
    }
}

impl<
    T0: Visualize,
    T1: Visualize,
    T2: Visualize,
    T3: Visualize,
    T4: Visualize,
    T5: Visualize,
    T6: Visualize,
    T7: Visualize,
    T8: Visualize,
    T9: Visualize,
    T10: Visualize,
    T11: Visualize,
> Visualize for (
    T0,
    T1,
    T2,
    T3,
    T4,
    T5,
    T6,
    T7,
    T8,
    T9,
    T10,
    T11,
) {
    fn type_string() -> (name: String)
        ensures
            exists|parts: Seq<Seq<char>>|
                {
                    &&& parts.len() == 12
                    &&& names::<T0>(parts[0])
                    &&& names::<T1>(parts[1])
                    &&& names::<T2>(parts[2])
                    &&& names::<T3>(parts[3])
                    &&& names::<T4>(parts[4])
                    &&& names::<T5>(parts[5])
                    &&& names::<T6>(parts[6])
                    &&& names::<T7>(parts[7])
                    &&& names::<T8>(parts[8])
                    &&& names::<T9>(parts[9])
                    &&& names::<T10>(parts[10])
                    &&& names::<T11>(parts[11])
                    &&& name@ == tuple_text(parts)
                },
    {
        let mut parts: Vec<String> = Vec::new();
        parts.push(T0::type_string());
        parts.push(T1::type_string());
        parts.push(T2::type_string());
        parts.push(T3::type_string());
        parts.push(T4::type_string());
        parts.push(T5::type_string());
        parts.push(T6::type_string());
        parts.push(T7::type_string());
        parts.push(T8::type_string());
        parts.push(T9::type_string());
        parts.push(T10::type_string());
        parts.push(T11::type_string());
        let name = tuple_name(&parts);
        proof {
            let shown = texts(parts@);
            assert(names::<T0>(shown[0]));
            assert(names::<T1>(shown[1]));
            assert(names::<T2>(shown[2]));
            assert(names::<T3>(shown[3]));
            assert(names::<T4>(shown[4]));
            assert(names::<T5>(shown[5]));
            assert(names::<T6>(shown[6]));
            assert(names::<T7>(shown[7]));
            assert(names::<T8>(shown[8]));
            assert(names::<T9>(shown[9]));
            assert(names::<T10>(shown[10]));
            assert(names::<T11>(shown[11]));
        }
        name
    }

    fn associated_data(&self) -> (nested: Option<Vec<DataDescription>>)
        ensures
            nested matches Some(each) && {
                &&& each.len() == 12
                &&& describes(&self.0, each[0])
                &&& describes(&self.1, each[1])
                &&& describes(&self.2, each[2])
                &&& describes(&self.3, each[3])
                &&& describes(&self.4, each[4])
                &&& describes(&self.5, each[5])
                &&& describes(&self.6, each[6])
                &&& describes(&self.7, each[7])
                &&& describes(&self.8, each[8])
                &&& describes(&self.9, each[9])
                &&& describes(&self.10, each[10])
                &&& describes(&self.11, each[11])
            },
    {
        let mut each: Vec<DataDescription> = Vec::new();
        each.push(DataDescription::describe(&self.0));
        each.push(DataDescription::describe(&self.1));
        each.push(DataDescription::describe(&self.2));
        each.push(DataDescription::describe(&self.3));
        each.push(DataDescription::describe(&self.4));
        each.push(DataDescription::describe(&self.5));
        each.push(DataDescription::describe(&self.6));
        each.push(DataDescription::describe(&self.7));
        each.push(DataDescription::describe(&self.8));
        each.push(DataDescription::describe(&self.9));
        each.push(DataDescription::describe(&self.10));
        each.push(DataDescription::describe(&self.11));
        Some(each)
    }
}

impl<
    T0: Visualize,
    T1: Visualize,
    T2: Visualize,
    T3: Visualize,
    T4: Visualize,
    T5: Visualize,
    T6: Visualize,
    T7: Visualize,
    T8: Visualize,
    T9: Visualize,
    T10: Visualize,
    T11: Visualize,
    T12: Visualize,
> Visualize for (
    T0,
    T1,
    T2,
    T3,
    T4,
    T5,
    T6,
    T7,
    T8,
    T9,
    T10,
    T11,
    T12,
) {
    fn type_string() -> (name: String)
        ensures
            exists|parts: Seq<Seq<char>>|
                {
                    &&& parts.len() == 13
                    &&& names::<T0>(parts[0])
                    &&& names::<T1>(parts[1])
                    &&& names::<T2>(parts[2])
                    &&& names::<T3>(parts[3])
                    &&& names::<T4>(parts[4])
                    &&& names::<T5>(parts[5])
                    &&& names::<T6>(parts[6])
                    &&& names::<T7>(parts[7])
                    &&& names::<T8>(parts[8])
                    &&& names::<T9>(parts[9])
                    &&& names::<T10>(parts[10])
                    &&& names::<T11>(parts[11])
                    &&& names::<T12>(parts[12])
                    &&& name@ == tuple_text(parts)
                },
    {
        let mut parts: Vec<String> = Vec::new();
        parts.push(T0::type_string());
        parts.push(T1::type_string());
        parts.push(T2::type_string());
        parts.push(T3::type_string());
        parts.push(T4::type_string());
        parts.push(T5::type_string());
        parts.push(T6::type_string());
        parts.push(T7::type_string());
        parts.push(T8::type_string());
        parts.push(T9::type_string());
        parts.push(T10::type_string());
        parts.push(T11::type_string());
        parts.push(T12::type_string());
        let name = tuple_name(&parts);
        proof {
            let shown = texts(parts@);
            assert(names::<T0>(shown[0]));
            assert(names::<T1>(shown[1]));
            assert(names::<T2>(shown[2]));
            assert(names::<T3>(shown[3]));
            assert(names::<T4>(shown[4]));
            assert(names::<T5>(shown[5]));
            assert(names::<T6>(shown[6]));
            assert(names::<T7>(shown[7]));
            assert(names::<T8>(shown[8]));
            assert(names::<T9>(shown[9]));
            assert(names::<T10>(shown[10]));
            assert(names::<T11>(shown[11]));
            assert(names::<T12>(shown[12]));
        }
        name
    }

    fn associated_data(&self) -> (nested: Option<Vec<DataDescription>>)
        ensures
            nested matches Some(each) && {
                &&& each.len() == 13
                &&& describes(&self.0, each[0])
                &&& describes(&self.1, each[1])
                &&& describes(&self.2, each[2])
                &&& describes(&self.3, each[3])
                &&& describes(&self.4, each[4])
                &&& describes(&self.5, each[5])
                &&& describes(&self.6, each[6])
                &&& describes(&self.7, each[7])
                &&& describes(&self.8, each[8])
                &&& describes(&self.9, each[9])
                &&& describes(&self.10, each[10])
                &&& describes(&self.11, each[11])
                &&& describes(&self.12, each[12])
            },
    {
        let mut each: Vec<DataDescription> = Vec::new();
        each.push(DataDescription::describe(&self.0));
        each.push(DataDescription::describe(&self.1));
        each.push(DataDescription::describe(&self.2));
        each.push(DataDescription::describe(&self.3));
        each.push(DataDescription::describe(&self.4));
        each.push(DataDescription::describe(&self.5));
        each.push(DataDescription::describe(&self.6));
        each.push(DataDescription::describe(&self.7));
        each.push(DataDescription::describe(&self.8));
        each.push(DataDescription::describe(&self.9));
        each.push(DataDescription::describe(&self.10));
        each.push(DataDescription::describe(&self.11));
        each.push(DataDescription::describe(&self.12));
        Some(each)
    }
}

impl<
    T0: Visualize,
    T1: Visualize,
    T2: Visualize,
    T3: Visualize,
    T4: Visualize,
    T5: Visualize,
    T6: Visualize,
    T7: Visualize,
    T8: Visualize,
    T9: Visualize,
    T10: Visualize,
    T11: Visualize,
    T12: Visualize,
    T13: Visualize,
> Visualize for (
    T0,
    T1,
    T2,
    T3,
    T4,
    T5,
    T6,
    T7,
    T8,
    T9,
    T10,
    T11,
    T12,
    T13,
) {
    fn type_string() -> (name: String)
        ensures
            exists|parts: Seq<Seq<char>>|
                {
                    &&& parts.len() == 14
                    &&& names::<T0>(parts[0])
                    &&& names::<T1>(parts[1])
                    &&& names::<T2>(parts[2])
                    &&& names::<T3>(parts[3])
                    &&& names::<T4>(parts[4])
                    &&& names::<T5>(parts[5])
                    &&& names::<T6>(parts[6])
                    &&& names::<T7>(parts[7])
                    &&& names::<T8>(parts[8])
                    &&& names::<T9>(parts[9])
                    &&& names::<T10>(parts[10])
                    &&& names::<T11>(parts[11])
                    &&& names::<T12>(parts[12])
                    &&& names::<T13>(parts[13])
                    &&& name@ == tuple_text(parts)
                },
    {
        let mut parts: Vec<String> = Vec::new();
        parts.push(T0::type_string());
        parts.push(T1::type_string());
        parts.push(T2::type_string());
        parts.push(T3::type_string());
        parts.push(T4::type_string());
        parts.push(T5::type_string());
        parts.push(T6::type_string());
        parts.push(T7::type_string());
        parts.push(T8::type_string());
        parts.push(T9::type_string());
        parts.push(T10::type_string());
        parts.push(T11::type_string());
        parts.push(T12::type_string());
        parts.push(T13::type_string());
        let name = tuple_name(&parts);
        proof {
            let shown = texts(parts@);
            assert(names::<T0>(shown[0]));
            assert(names::<T1>(shown[1]));
            assert(names::<T2>(shown[2]));
            assert(names::<T3>(shown[3]));
            assert(names::<T4>(shown[4]));
            assert(names::<T5>(shown[5]));
            assert(names::<T6>(shown[6]));
            assert(names::<T7>(shown[7]));
            assert(names::<T8>(shown[8]));
            assert(names::<T9>(shown[9]));
            assert(names::<T10>(shown[10]));
            assert(names::<T11>(shown[11]));
            assert(names::<T12>(shown[12]));
            assert(names::<T13>(shown[13]));
        }
        name
    }

    fn associated_data(&self) -> (nested: Option<Vec<DataDescription>>)
        ensures
            nested matches Some(each) && {
                &&& each.len() == 14
                &&& describes(&self.0, each[0])
                &&& describes(&self.1, each[1])
                &&& describes(&self.2, each[2])
                &&& describes(&self.3, each[3])
                &&& describes(&self.4, each[4])
                &&& describes(&self.5, each[5])
                &&& describes(&self.6, each[6])
                &&& describes(&self.7, each[7])
                &&& describes(&self.8, each[8])
                &&& describes(&self.9, each[9])
                &&& describes(&self.10, each[10])
                &&& describes(&self.11, each[11])
                &&& describes(&self.12, each[12])
                &&& describes(&self.13, each[13])
            },
    {
        let mut each: Vec<DataDescription> = Vec::new();
        each.push(DataDescription::describe(&self.0));
        each.push(DataDescription::describe(&self.1));
        each.push(DataDescription::describe(&self.2));
        each.push(DataDescription::describe(&self.3));
        each.push(DataDescription::describe(&self.4));
        each.push(DataDescription::describe(&self.5));
        each.push(DataDescription::describe(&self.6));
        each.push(DataDescription::describe(&self.7));
        each.push(DataDescription::describe(&self.8));
        each.push(DataDescription::describe(&self.9));
        each.push(DataDescription::describe(&self.10));
        each.push(DataDescription::describe(&self.11));
        each.push(DataDescription::describe(&self.12));
        each.push(DataDescription::describe(&self.13));
        Some(each)
    }
}

impl<
    T0: Visualize,
    T1: Visualize,
    T2: Visualize,
    T3: Visualize,
    T4: Visualize,
    T5: Visualize,
    T6: Visualize,
    T7: Visualize,
    T8: Visualize,
    T9: Visualize,
    T10: Visualize,
    T11: Visualize,
    T12: Visualize,
    T13: Visualize,
    T14: Visualize,
> Visualize for (
    T0,
    T1,
    T2,
    T3,
    T4,
    T5,
    T6,
    T7,
    T8,
    T9,
    T10,
    T11,
    T12,
    T13,
    T14,
) {
    fn type_string() -> (name: String)
        ensures
            exists|parts: Seq<Seq<char>>|
                {
                    &&& parts.len() == 15
                    &&& names::<T0>(parts[0])
                    &&& names::<T1>(parts[1])
                    &&& names::<T2>(parts[2])
                    &&& names::<T3>(parts[3])
                    &&& names::<T4>(parts[4])
                    &&& names::<T5>(parts[5])
                    &&& names::<T6>(parts[6])
                    &&& names::<T7>(parts[7])
                    &&& names::<T8>(parts[8])
                    &&& names::<T9>(parts[9])
                    &&& names::<T10>(parts[10])
                    &&& names::<T11>(parts[11])
                    &&& names::<T12>(parts[12])
                    &&& names::<T13>(parts[13])
                    &&& names::<T14>(parts[14])
                    &&& name@ == tuple_text(parts)
                },
    {
        let mut parts: Vec<String> = Vec::new();
        parts.push(T0::type_string());
        parts.push(T1::type_string());
        parts.push(T2::type_string());
        parts.push(T3::type_string());
        parts.push(T4::type_string());
        parts.push(T5::type_string());
        parts.push(T6::type_string());
        parts.push(T7::type_string());
        parts.push(T8::type_string());
        parts.push(T9::type_string());
        parts.push(T10::type_string());
        parts.push(T11::type_string());
        parts.push(T12::type_string());
        parts.push(T13::type_string());
        parts.push(T14::type_string());
        let name = tuple_name(&parts);
        proof {
            let shown = texts(parts@);
            assert(names::<T0>(shown[0]));
            assert(names::<T1>(shown[1]));
            assert(names::<T2>(shown[2]));
            assert(names::<T3>(shown[3]));
            assert(names::<T4>(shown[4]));
            assert(names::<T5>(shown[5]));
            assert(names::<T6>(shown[6]));
            assert(names::<T7>(shown[7]));
            assert(names::<T8>(shown[8]));
            assert(names::<T9>(shown[9]));
            assert(names::<T10>(shown[10]));
            assert(names::<T11>(shown[11]));
            assert(names::<T12>(shown[12]));
            assert(names::<T13>(shown[13]));
            assert(names::<T14>(shown[14]));
        }
        name
    }

    fn associated_data(&self) -> (nested: Option<Vec<DataDescription>>)
        ensures
            nested matches Some(each) && {
                &&& each.len() == 15
                &&& describes(&self.0, each[0])
                &&& describes(&self.1, each[1])
                &&& describes(&self.2, each[2])
                &&& describes(&self.3, each[3])
                &&& describes(&self.4, each[4])
                &&& describes(&self.5, each[5])
                &&& describes(&self.6, each[6])
                &&& describes(&self.7, each[7])
                &&& describes(&self.8, each[8])
                &&& describes(&self.9, each[9])
                &&& describes(&self.10, each[10])
                &&& describes(&self.11, each[11])
                &&& describes(&self.12, each[12])
                &&& describes(&self.13, each[13])
                &&& describes(&self.14, each[14])
            },
    {
        let mut each: Vec<DataDescription> = Vec::new();
        each.push(DataDescription::describe(&self.0));
        each.push(DataDescription::describe(&self.1));
        each.push(DataDescription::describe(&self.2));
        each.push(DataDescription::describe(&self.3));
        each.push(DataDescription::describe(&self.4));
        each.push(DataDescription::describe(&self.5));
        each.push(DataDescription::describe(&self.6));
        each.push(DataDescription::describe(&self.7));
        each.push(DataDescription::describe(&self.8));
        each.push(DataDescription::describe(&self.9));
        each.push(DataDescription::describe(&self.10));
        each.push(DataDescription::describe(&self.11));
        each.push(DataDescription::describe(&self.12));
        each.push(DataDescription::describe(&self.13));
        each.push(DataDescription::describe(&self.14));
        Some(each)
    }
}

impl<
    T0: Visualize,
    T1: Visualize,
    T2: Visualize,
    T3: Visualize,
    T4: Visualize,
    T5: Visualize,
    T6: Visualize,
    T7: Visualize,
    T8: Visualize,
    T9: Visualize,
    T10: Visualize,
    T11: Visualize,
    T12: Visualize,
    T13: Visualize,
    T14: Visualize,
    T15: Visualize,
> Visualize for (
    T0,
    T1,
    T2,
    T3,
    T4,
    T5,
    T6,
    T7,
    T8,
    T9,
    T10,
    T11,
    T12,
    T13,
    T14,
    T15,
) {
    fn type_string() -> (name: String)
        ensures
            exists|parts: Seq<Seq<char>>|
                {
                    &&& parts.len() == 16
                    &&& names::<T0>(parts[0])
                    &&& names::<T1>(parts[1])
                    &&& names::<T2>(parts[2])
                    &&& names::<T3>(parts[3])
                    &&& names::<T4>(parts[4])
                    &&& names::<T5>(parts[5])
                    &&& names::<T6>(parts[6])
                    &&& names::<T7>(parts[7])
                    &&& names::<T8>(parts[8])
                    &&& names::<T9>(parts[9])
                    &&& names::<T10>(parts[10])
                    &&& names::<T11>(parts[11])
                    &&& names::<T12>(parts[12])
                    &&& names::<T13>(parts[13])
                    &&& names::<T14>(parts[14])
                    &&& names::<T15>(parts[15])
                    &&& name@ == tuple_text(parts)
                },
    {
        let mut parts: Vec<String> = Vec::new();
        parts.push(T0::type_string());
        parts.push(T1::type_string());
        parts.push(T2::type_string());
        parts.push(T3::type_string());
        parts.push(T4::type_string());
        parts.push(T5::type_string());
        parts.push(T6::type_string());
        parts.push(T7::type_string());
        parts.push(T8::type_string());
        parts.push(T9::type_string());
        parts.push(T10::type_string());
        parts.push(T11::type_string());
        parts.push(T12::type_string());
        parts.push(T13::type_string());
        parts.push(T14::type_string());
        parts.push(T15::type_string());
        let name = tuple_name(&parts);
        proof {
            let shown = texts(parts@);
            assert(names::<T0>(shown[0]));
            assert(names::<T1>(shown[1]));
            assert(names::<T2>(shown[2]));
            assert(names::<T3>(shown[3]));
            assert(names::<T4>(shown[4]));
            assert(names::<T5>(shown[5]));
            assert(names::<T6>(shown[6]));
            assert(names::<T7>(shown[7]));
            assert(names::<T8>(shown[8]));
            assert(names::<T9>(shown[9]));
            assert(names::<T10>(shown[10]));
            assert(names::<T11>(shown[11]));
            assert(names::<T12>(shown[12]));
            assert(names::<T13>(shown[13]));
            assert(names::<T14>(shown[14]));
            assert(names::<T15>(shown[15]));
        }
        name
    }

    fn associated_data(&self) -> (nested: Option<Vec<DataDescription>>)
        ensures
            nested matches Some(each) && {
                &&& each.len() == 16
                &&& describes(&self.0, each[0])
                &&& describes(&self.1, each[1])
                &&& describes(&self.2, each[2])
                &&& describes(&self.3, each[3])
                &&& describes(&self.4, each[4])
                &&& describes(&self.5, each[5])
                &&& describes(&self.6, each[6])
                &&& describes(&self.7, each[7])
                &&& describes(&self.8, each[8])
                &&& describes(&self.9, each[9])
                &&& describes(&self.10, each[10])
                &&& describes(&self.11, each[11])
                &&& describes(&self.12, each[12])
                &&& describes(&self.13, each[13])
                &&& describes(&self.14, each[14])
                &&& describes(&self.15, each[15])
            },
    {
        let mut each: Vec<DataDescription> = Vec::new();
        each.push(DataDescription::describe(&self.0));
        each.push(DataDescription::describe(&self.1));
        each.push(DataDescription::describe(&self.2));
        each.push(DataDescription::describe(&self.3));
        each.push(DataDescription::describe(&self.4));
        each.push(DataDescription::describe(&self.5));
        each.push(DataDescription::describe(&self.6));
        each.push(DataDescription::describe(&self.7));
        each.push(DataDescription::describe(&self.8));
        each.push(DataDescription::describe(&self.9));
        each.push(DataDescription::describe(&self.10));
        each.push(DataDescription::describe(&self.11));
        each.push(DataDescription::describe(&self.12));
        each.push(DataDescription::describe(&self.13));
        each.push(DataDescription::describe(&self.14));
        each.push(DataDescription::describe(&self.15));
        Some(each)
    }
}

} // verus!
