//! The SUM aggregate as a query engine sees it: its name and signature, the
//! type of its result, the fields of its partial state, and the accumulator
//! for each way of running it.

use crate::element_type::{return_type, ElementType, ExactKind, NumericKind};
use crate::error::SumError;
use crate::grouped::GroupedAccumulator;
use crate::outside::format_state_name;
use crate::scalar::SumAccumulator;
use crate::sliding::{SlidingSumAccumulator, Window};
use vstd::prelude::*;

verus! {

/// Whether a function gives the same result for the same arguments.
#[derive(Clone, Copy, Debug, PartialEq, Eq, Structural)]
pub enum Volatility {
    Immutable,
    Stable,
    Volatile,
}

/// The arguments that a function takes: `argument_count` of them, all of one
/// type, which is one of `argument_types`.
#[derive(Debug, PartialEq, Eq)]
pub struct Signature {
    pub argument_count: usize,
    pub argument_types: Vec<ElementType>,
    pub volatility: Volatility,
}

/// What an aggregate is over the same rows in reverse order.
#[derive(Clone, Copy, Debug, PartialEq, Eq, Structural)]
pub enum ReversedUDAF {
    /// The aggregate itself.
    Identical,
    /// Nothing that can be computed.
    NotSupported,
}

/// The way in which an aggregate runs.
#[derive(Clone, Copy, Debug, PartialEq, Eq, Structural)]
pub enum ExecutionMode {
    /// One total for a partition.
    Plain,
    /// One total for each group.
    Grouped,
    /// One total for a window that slides over the rows.
    Sliding,
}

/// An accumulator for one of the three ways of running the aggregate.
#[derive(Debug)]
pub enum Accumulator {
    Plain(SumAccumulator),
    Grouped(GroupedAccumulator),
    Sliding(SlidingSumAccumulator),
}

impl Accumulator {
    /// The way of running the aggregate that the accumulator is for.
    pub open spec fn spec_mode(&self) -> ExecutionMode {
        match self {
            Accumulator::Plain(_) => ExecutionMode::Plain,
            Accumulator::Grouped(_) => ExecutionMode::Grouped,
            Accumulator::Sliding(_) => ExecutionMode::Sliding,
        }
    }

    /// The kind that the accumulator was made for.
    pub open spec fn spec_kind(&self) -> ExactKind {
        match self {
            Accumulator::Plain(a) => a.spec_kind(),
            Accumulator::Grouped(a) => a.spec_kind(),
            Accumulator::Sliding(a) => a@.kind,
        }
    }

    /// The accumulator has taken no batch yet.
    pub open spec fn is_new(&self) -> bool {
        match self {
            Accumulator::Plain(a) => a@ is None,
            Accumulator::Grouped(a) => a@.len() == 0,
            Accumulator::Sliding(a) => a@.sum == 0 && a@.count == 0,
        }
    }

    /// The way of running the aggregate that the accumulator is for.
    pub fn mode(&self) -> (r: ExecutionMode)
        ensures
            r == self.spec_mode(),
    {
        match self {
            Accumulator::Plain(_) => ExecutionMode::Plain,
            Accumulator::Grouped(_) => ExecutionMode::Grouped,
            Accumulator::Sliding(_) => ExecutionMode::Sliding,
        }
    }
}

/// What an accumulator is built from.
#[derive(Debug)]
pub struct AccumulatorArgs {
    /// The type of the aggregate's result.
    pub data_type: ElementType,
}

/// What the fields of a partial state are named and typed from.
#[derive(Debug)]
pub struct StateFieldsArgs {
    /// The name of the aggregate expression.
    pub name: String,
    /// The type of the aggregate's result.
    pub return_type: ElementType,
    /// The way in which the aggregate runs.
    pub mode: ExecutionMode,
}

/// A field of a partial state.
#[derive(Debug, PartialEq, Eq)]
pub struct Field {
    pub name: String,
    pub data_type: ElementType,
    pub nullable: bool,
}

/// The types that the signature of SUM names: the integers and floats of
/// every width. A decimal reaches a sum through the engine's coercion.
pub open spec fn spec_numerics() -> Seq<ElementType> {
    seq![
        ElementType::Int8,
        ElementType::Int16,
        ElementType::Int32,
        ElementType::Int64,
        ElementType::UInt8,
        ElementType::UInt16,
        ElementType::UInt32,
        ElementType::UInt64,
        ElementType::Float32,
        ElementType::Float64,
    ]
}

/// The types that the signature of SUM names.
pub fn numerics() -> (r: Vec<ElementType>)
    ensures
        r@ == spec_numerics(),
{
    let mut types = Vec::new();
    types.push(ElementType::Int8);
    types.push(ElementType::Int16);
    types.push(ElementType::Int32);
    types.push(ElementType::Int64);
    types.push(ElementType::UInt8);
    types.push(ElementType::UInt16);
    types.push(ElementType::UInt32);
    types.push(ElementType::UInt64);
    types.push(ElementType::Float32);
    types.push(ElementType::Float64);
    assert(types@ =~= spec_numerics());
    types
}

/// The exact kind that an accumulator is built for, for the type of a sum:
/// none for a type that no sum has, and none within for the floating kind.
pub open spec fn dispatch(data_type: ElementType) -> Option<Option<ExactKind>> {
    match NumericKind::spec_of(data_type) {
        Some(kind) => Some(kind.spec_exact()),
        None => None,
    }
}

/// The fields of the partial state of a SUM that goes by `name`, has a
/// result of type `return_type` and runs in `mode`: the partial total, and
/// for a sliding window the partial count after it.
pub open spec fn spec_state_fields(
    name: Seq<char>,
    return_type: ElementType,
    mode: ExecutionMode,
) -> Seq<(Seq<char>, ElementType, bool)> {
    let sum = (name + seq!['['] + "sum"@ + seq![']'], return_type, true);
    let count = (name + seq!['['] + "count"@ + seq![']'], ElementType::UInt64, true);
    if mode == ExecutionMode::Sliding {
        seq![sum, count]
    } else {
        seq![sum]
    }
}

/// The SUM aggregate.
#[derive(Debug)]
pub struct Sum {
    signature: Signature,
    aliases: Vec<String>,
}

impl Sum {
    /// The signature of the aggregate.
    pub closed spec fn spec_signature(&self) -> Signature {
        self.signature
    }

    /// The other names of the aggregate.
    pub closed spec fn spec_aliases(&self) -> Seq<String> {
        self.aliases@
    }

    /// The aggregate: it takes one argument of a numeric type and goes by
    /// the one other name `sum`.
    pub fn new() -> (r: Self)
        ensures
            r.spec_signature().argument_count == 1,
            r.spec_signature().argument_types@ == spec_numerics(),
            r.spec_signature().volatility == Volatility::Immutable,
            r.spec_aliases().len() == 1,
            r.spec_aliases()[0]@ == "sum"@,
    {
        let mut aliases = Vec::new();
        aliases.push("sum".to_owned());
        Sum {
            signature: Signature {
                argument_count: 1,
                argument_types: numerics(),
                volatility: Volatility::Immutable,
            },
            aliases,
        }
    }

    /// The name of the aggregate.
    pub fn name(&self) -> (r: &'static str)
        ensures
            r@ == "SUM"@,
    {
        "SUM"
    }

    /// The signature of the aggregate.
    pub fn signature(&self) -> (r: &Signature)
        ensures
            *r == self.spec_signature(),
    {
        &self.signature
    }

    /// The other names of the aggregate.
    pub fn aliases(&self) -> (r: &Vec<String>)
        ensures
            r@ == self.spec_aliases(),
    {
        &self.aliases
    }

    /// The type of the sum of the one argument.
    ///
    /// Fails with `Internal` exactly when the call does not have one
    /// argument, and else with `NotSupported` exactly when the argument is
    /// of a type that cannot be summed.
    pub fn return_type(&self, arg_types: &Vec<ElementType>) -> (r: Result<ElementType, SumError>)
        ensures
            arg_types@.len() != 1 ==> r == Err::<ElementType, SumError>(SumError::Internal),
            arg_types@.len() == 1 ==> match crate::element_type::spec_return_type(arg_types@[0]) {
                Some(t) => r == Ok::<ElementType, SumError>(t),
                None => r == Err::<ElementType, SumError>(SumError::NotSupported),
            },
    {
        if arg_types.len() != 1 {
            return Err(SumError::Internal);
        }
        return_type(&arg_types[0])
    }

    /// The accumulator for one total of a partition; none where the result
    /// is of the floating kind, whose sums are not exact and are the
    /// caller's.
    ///
    /// Fails with `NotSupported` exactly when the result is of a type that
    /// no sum has.
    pub fn accumulator(&self, args: AccumulatorArgs) -> (r: Result<
        Option<SumAccumulator>,
        SumError,
    >)
        ensures
            match dispatch(args.data_type) {
                None => r matches Err(e) && e == SumError::NotSupported,
                Some(None) => r matches Ok(None),
                Some(Some(kind)) => r matches Ok(Some(a)) && a.spec_kind() == kind && a@ is None,
            },
    {
        match NumericKind::of(&args.data_type) {
            Ok(kind) => match kind.exact() {
                Some(exact) => Ok(Some(SumAccumulator::new(exact))),
                None => Ok(None),
            },
            Err(e) => Err(e),
        }
    }

    /// The fields of the partial state: the partial total, which may be
    /// null, and for a sliding window the partial count after it.
    pub fn state_fields(&self, args: StateFieldsArgs) -> (r: Result<Vec<Field>, SumError>)
        ensures
            r matches Ok(fields) && fields@.map_values(
                |f: Field| (f.name@, f.data_type, f.nullable),
            ) == spec_state_fields(args.name@, args.return_type, args.mode),
    {
        let mut fields = Vec::new();
        let sliding = match args.mode {
            ExecutionMode::Sliding => true,
            _ => false,
        };
        fields.push(
            Field {
                name: format_state_name(args.name.as_str(), "sum"),
                data_type: args.return_type,
                nullable: true,
            },
        );
        if sliding {
            fields.push(
                Field {
                    name: format_state_name(args.name.as_str(), "count"),
                    data_type: ElementType::UInt64,
                    nullable: true,
                },
            );
        }
        assert(fields@.map_values(|f: Field| (f.name@, f.data_type, f.nullable))
            =~= spec_state_fields(args.name@, args.return_type, args.mode));
        Ok(fields)
    }

    /// Whether there is an accumulator for grouped totals: there is.
    pub fn groups_accumulator_supported(&self, args: AccumulatorArgs) -> (r: bool)
        ensures
            r,
    {
        true
    }

    /// The accumulator for one total for each group; none where the result
    /// is of the floating kind.
    ///
    /// Fails with `NotSupported` exactly when the result is of a type that
    /// no sum has.
    pub fn create_groups_accumulator(&self, args: AccumulatorArgs) -> (r: Result<
        Option<GroupedAccumulator>,
        SumError,
    >)
        ensures
            match dispatch(args.data_type) {
                None => r matches Err(e) && e == SumError::NotSupported,
                Some(None) => r matches Ok(None),
                Some(Some(kind)) => r matches Ok(Some(a)) && a.spec_kind() == kind && a@.len()
                    == 0,
            },
    {
        match NumericKind::of(&args.data_type) {
            Ok(kind) => match kind.exact() {
                Some(exact) => Ok(Some(GroupedAccumulator::new(exact))),
                None => Ok(None),
            },
            Err(e) => Err(e),
        }
    }

    /// The accumulator for the total of a sliding window; none where the
    /// result is of the floating kind.
    ///
    /// Fails with `NotSupported` exactly when the result is of a type that
    /// no sum has.
    pub fn create_sliding_accumulator(&self, args: AccumulatorArgs) -> (r: Result<
        Option<SlidingSumAccumulator>,
        SumError,
    >)
        ensures
            match dispatch(args.data_type) {
                None => r matches Err(e) && e == SumError::NotSupported,
                Some(None) => r matches Ok(None),
                Some(Some(kind)) => r matches Ok(Some(a)) && a@ == (Window {
                    kind,
                    sum: 0,
                    count: 0,
                }),
            },
    {
        match NumericKind::of(&args.data_type) {
            Ok(kind) => match kind.exact() {
                Some(exact) => Ok(Some(SlidingSumAccumulator::new(exact))),
                None => Ok(None),
            },
            Err(e) => Err(e),
        }
    }

    /// The accumulator for a way of running the aggregate; none where the
    /// result is of the floating kind.
    ///
    /// Fails with `NotSupported` exactly when the result is of a type that
    /// no sum has.
    pub fn create_accumulator(&self, mode: ExecutionMode, args: AccumulatorArgs) -> (r: Result<
        Option<Accumulator>,
        SumError,
    >)
        ensures
            match dispatch(args.data_type) {
                None => r matches Err(e) && e == SumError::NotSupported,
                Some(None) => r matches Ok(None),
                Some(Some(kind)) => r matches Ok(Some(a)) && a.spec_mode() == mode && a.spec_kind()
                    == kind && a.is_new(),
            },
    {
        match mode {
            ExecutionMode::Plain => match self.accumulator(args) {
                Ok(Some(a)) => Ok(Some(Accumulator::Plain(a))),
                Ok(None) => Ok(None),
                Err(e) => Err(e),
            },
            ExecutionMode::Grouped => match self.create_groups_accumulator(args) {
                Ok(Some(a)) => Ok(Some(Accumulator::Grouped(a))),
                Ok(None) => Ok(None),
                Err(e) => Err(e),
            },
            ExecutionMode::Sliding => match self.create_sliding_accumulator(args) {
                Ok(Some(a)) => Ok(Some(Accumulator::Sliding(a))),
                Ok(None) => Ok(None),
                Err(e) => Err(e),
            },
        }
    }

    /// What the aggregate is over the same rows in reverse order: itself.
    pub fn reverse_expr(&self) -> (r: ReversedUDAF)
        ensures
            r == ReversedUDAF::Identical,
    {
        ReversedUDAF::Identical
    }
}

impl Default for Sum {
    fn default() -> (r: Self)
        ensures
            r.spec_signature().argument_count == 1,
            r.spec_signature().argument_types@ == spec_numerics(),
            r.spec_signature().volatility == Volatility::Immutable,
            r.spec_aliases().len() == 1,
            r.spec_aliases()[0]@ == "sum"@,
    {
        Self::new()
    }
}

} // verus!
