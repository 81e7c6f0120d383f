use vstd::prelude::*;

verus! {

/// A function of the dialect, plain, aggregate or an alias of another.
pub struct FunctionRecord {
    pub name: String,
    pub is_aggregate: bool,
    /// The name of the function this one stands for, matched without regard to case.
    pub alias_to: Option<String>,
    pub syntax: String,
    pub description: String,
    pub arguments: String,
    pub returned_value: String,
    pub categories: String,
}

/// A data type, or an alias of one.
pub struct DataTypeRecord {
    pub name: String,
    pub alias_to: Option<String>,
}

pub struct TableEngineRecord {
    pub name: String,
}

/// An input/output format, with the directions it can be used in.
pub struct FormatRecord {
    pub name: String,
    pub is_input: bool,
    pub is_output: bool,
}

pub struct TableFunctionRecord {
    pub name: String,
    pub description: String,
}

/// A setting, with the name of its value's type.
pub struct SettingRecord {
    pub name: String,
    pub value_type: String,
    pub description: String,
}

/// The metadata of the dialect that completion lists are built from.
pub struct Catalog {
    pub functions: Vec<FunctionRecord>,
    pub keywords: Vec<String>,
    pub data_types: Vec<DataTypeRecord>,
    pub table_engines: Vec<TableEngineRecord>,
    pub formats: Vec<FormatRecord>,
    pub table_functions: Vec<TableFunctionRecord>,
    pub settings: Vec<SettingRecord>,
    pub merge_tree_settings: Vec<SettingRecord>,
    pub aggregate_combinators: Vec<String>,
}

} // verus!
