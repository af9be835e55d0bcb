//! The boundary to the embedded scripting runtime. The engine needs only
//! "evaluate the script text and read back named global values": each
//! reading is a small trusted call into mlua, and everything read comes
//! back as plain strings, tables of strings, or the tagged values the
//! config decoder validates. The shapes of the script's function API are
//! described here too.

use vstd::prelude::*;

verus! {

/// The kinds of value the embedded scripting runtime distinguishes.
#[derive(Debug, Clone, Copy)]
pub enum Values {
    Nil,
    Boolean,
    LightUserData,
    Integer,
    Number,
    String,
    Table,
    Function,
    Thread,
    UserData,
    Error,
}

/// The shape of one function the runtime exposes or expects: its name,
/// its argument count, and the kind of value it returns, if any.
pub struct LuaFunctionInfo {
    pub name: &'static str,
    pub args: usize,
    pub ret_type: Option<Values>,
}

impl LuaFunctionInfo {
    pub fn new(name: &'static str, args: usize, ret_type: Option<Values>) -> (r: LuaFunctionInfo)
        ensures
            r.name@ == name@,
            r.args == args,
            r.ret_type == ret_type,
    {
        LuaFunctionInfo { name, args, ret_type }
    }
}

#[verifier::external_type_specification]
#[verifier::external_body]
pub struct ExLua(mlua::Lua);

#[verifier::external_type_specification]
#[verifier::external_body]
pub struct ExTable(mlua::Table);

#[verifier::external_type_specification]
#[verifier::external_body]
pub struct ExValue(mlua::Value);

#[verifier::external_type_specification]
#[verifier::external_body]
pub struct ExError(mlua::Error);

/// Relies on mlua::Lua::new and Chunk::exec: runs the script text in a
/// fresh interpreter and hands the interpreter back, or the evaluation
/// error. What the script computed depends on the script alone being run
/// here, so nothing is promised of the outcome.
#[verifier::external_body]
pub fn lua_eval(src: &str) -> (r: Result<mlua::Lua, mlua::Error>) {
    let lua = mlua::Lua::new();
    match lua.load(src).exec() {
        Ok(()) => Ok(lua),
        Err(e) => Err(e),
    }
}

/// Relies on mlua::Lua::globals and mlua::Table::get::<String>: the named
/// global as a string, or `None` when it is absent or no string.
#[verifier::external_body]
pub fn lua_global_string(lua: &mlua::Lua, name: &str) -> (r: Option<String>) {
    lua.globals().get::<String>(name).ok()
}

/// Relies on mlua::Lua::globals and mlua::Table::get::<Table>: the named
/// global as a table, or `None` when it is absent or no table.
#[verifier::external_body]
pub fn lua_global_table(lua: &mlua::Lua, name: &str) -> (r: Option<mlua::Table>) {
    lua.globals().get::<mlua::Table>(name).ok()
}

/// Relies on mlua::Table::pairs::<String, String>: every key-value pair of
/// the table as strings, in the runtime's iteration order, or the first
/// conversion error.
#[verifier::external_body]
pub fn lua_table_string_pairs(t: &mlua::Table) -> (r: Result<Vec<(String, String)>, mlua::Error>) {
    t.pairs::<String, String>().collect()
}

/// Relies on mlua::Table::pairs::<String, Table>: the pairs whose key is a
/// string and whose value is a table, in the runtime's iteration order;
/// other pairs are skipped.
#[verifier::external_body]
pub fn lua_table_table_pairs(t: &mlua::Table) -> (r: Vec<(String, mlua::Table)>) {
    t.pairs::<String, mlua::Table>().flatten().collect()
}

/// Relies on mlua::Table::sequence_values::<String>: the sequence part of
/// the table as strings, in order, or the first conversion error.
#[verifier::external_body]
pub fn lua_table_seq_strings(t: &mlua::Table) -> (r: Result<Vec<String>, mlua::Error>) {
    t.sequence_values::<String>().collect()
}

/// Relies on mlua::Table::sequence_values::<String>: the string values of
/// the sequence part of the table, in order; other values are skipped.
#[verifier::external_body]
pub fn lua_table_seq_strings_lenient(t: &mlua::Table) -> (r: Vec<String>) {
    t.sequence_values::<String>().flatten().collect()
}

/// Relies on mlua::Table::sequence_values::<Table>: the sequence part of
/// the table as tables, in order, or the first conversion error.
#[verifier::external_body]
pub fn lua_table_seq_tables(t: &mlua::Table) -> (r: Result<Vec<mlua::Table>, mlua::Error>) {
    t.sequence_values::<mlua::Table>().collect()
}

/// Relies on mlua::Table::sequence_values::<Value>: the sequence part of
/// the table as raw values, in order, or the first error.
#[verifier::external_body]
pub fn lua_table_seq_values(t: &mlua::Table) -> (r: Result<Vec<mlua::Value>, mlua::Error>) {
    t.sequence_values::<mlua::Value>().collect()
}

/// Relies on the mlua::Value variants: an integer, a number rendered as
/// text, a string, or anything else — the closed set the config decoder
/// accepts.
#[verifier::external_body]
pub fn lua_classify_value(v: mlua::Value) -> (r: crate::config::RawValue) {
    match v {
        mlua::Value::Integer(i) => crate::config::RawValue::Int(i),
        mlua::Value::Number(n) => crate::config::RawValue::Num(n.to_string()),
        mlua::Value::String(s) => crate::config::RawValue::Str(s.to_string_lossy()),
        _ => crate::config::RawValue::Other,
    }
}

/// Relies on mlua::Error's Display implementation: the error rendered for
/// the user.
#[verifier::external_body]
pub fn lua_error_message(e: &mlua::Error) -> (r: String) {
    e.to_string()
}

} // verus!
