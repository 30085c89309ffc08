//! The values that routing rules compare payment attributes with.

use vstd::prelude::*;

verus! {

/// How an attribute is compared with a value.
#[derive(Debug, Clone, Copy, PartialEq, Eq, Hash, Structural)]
pub enum ComparisonType {
    Equal,
    NotEqual,
    LessThan,
    LessThanEqual,
    GreaterThan,
    GreaterThanEqual,
}

/// One side of a range: a comparison and the number compared with.
#[derive(Debug, Clone, Copy, PartialEq, Eq, Hash, Structural)]
pub struct NumberComparison {
    pub comparison_type: ComparisonType,
    pub number: u64,
}

/// A metadata entry: a key and the value expected under it.
#[derive(Debug, Clone, PartialEq, Eq, Hash)]
pub struct MetadataValue {
    pub key: String,
    pub value: String,
}

/// A value of the rule language.
#[derive(Debug, Clone, PartialEq, Eq, Hash)]
pub enum ValueType {
    /// A number literal.
    Number(u64),
    /// A variant of an enumeration, by name.
    EnumVariant(String),
    /// A metadata entry.
    MetadataVariant(MetadataValue),
    /// An arbitrary string.
    StrValue(String),
    /// A reference to a global variable.
    GlobalRef(String),
    /// Any one of the given numbers.
    NumberArray(Vec<u64>),
    /// Any one of the given variants.
    EnumVariantArray(Vec<String>),
    /// All of the given one-sided comparisons, which together bound a range.
    NumberComparisonArray(Vec<NumberComparison>),
}

/// Whether a number stands in the given relation to a bound.
pub open spec fn comparison_holds(comparison: ComparisonType, number: u64, bound: u64) -> bool {
    match comparison {
        ComparisonType::Equal => number == bound,
        ComparisonType::NotEqual => number != bound,
        ComparisonType::LessThan => number < bound,
        ComparisonType::LessThanEqual => number <= bound,
        ComparisonType::GreaterThan => number > bound,
        ComparisonType::GreaterThanEqual => number >= bound,
    }
}

impl NumberComparison {
    /// Whether `number` meets this comparison.
    pub fn holds_for(&self, number: u64) -> (res: bool)
        ensures
            res == comparison_holds(self.comparison_type, number, self.number),
    {
        match self.comparison_type {
            ComparisonType::Equal => number == self.number,
            ComparisonType::NotEqual => number != self.number,
            ComparisonType::LessThan => number < self.number,
            ComparisonType::LessThanEqual => number <= self.number,
            ComparisonType::GreaterThan => number > self.number,
            ComparisonType::GreaterThanEqual => number >= self.number,
        }
    }
}

} // verus!
