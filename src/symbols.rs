use vstd::prelude::*;
use vstd::string::*;

verus! {

/// The built-in symbol names, which are encoded without a context.
pub open spec fn system_symbol_table() -> Seq<Seq<char>> {
    seq![
        "All"@, "Automatic"@, "ComplexInfinity"@, "E"@, "False"@, "I"@,
        "Indeterminate"@, "Infinity"@, "Integer"@, "List"@, "Missing"@,
        "None"@, "Null"@, "Pi"@, "Plus"@, "Power"@, "Real"@, "Rule"@,
        "String"@, "Symbol"@, "Times"@, "True"@,
    ]
}

/// The character that separates a context from a symbol's bare name.
pub open spec fn context_separator() -> char {
    '`'
}

/// The context given to a bare name that is not built in.
pub open spec fn default_context() -> Seq<char> {
    "Global`"@
}

pub open spec fn is_system_symbol(name: Seq<char>) -> bool {
    system_symbol_table().contains(name)
}

pub open spec fn has_context(name: Seq<char>) -> bool {
    name.contains(context_separator())
}

/// The fully qualified form of a symbol name.
pub open spec fn qualified_name(name: Seq<char>) -> Seq<char> {
    if has_context(name) || is_system_symbol(name) {
        name
    } else {
        default_context() + name
    }
}

/// The table of built-in names; no entry point changes it.
fn system_symbols() -> (r: Vec<String>)
    ensures
        r@.map_values(|s: String| s@) == system_symbol_table(),
{
    let mut r: Vec<String> = Vec::new();
    r.push(String::from_str("All"));
    r.push(String::from_str("Automatic"));
    r.push(String::from_str("ComplexInfinity"));
    r.push(String::from_str("E"));
    r.push(String::from_str("False"));
    r.push(String::from_str("I"));
    r.push(String::from_str("Indeterminate"));
    r.push(String::from_str("Infinity"));
    r.push(String::from_str("Integer"));
    r.push(String::from_str("List"));
    r.push(String::from_str("Missing"));
    r.push(String::from_str("None"));
    r.push(String::from_str("Null"));
    r.push(String::from_str("Pi"));
    r.push(String::from_str("Plus"));
    r.push(String::from_str("Power"));
    r.push(String::from_str("Real"));
    r.push(String::from_str("Rule"));
    r.push(String::from_str("String"));
    r.push(String::from_str("Symbol"));
    r.push(String::from_str("Times"));
    r.push(String::from_str("True"));
    assert(r@.map_values(|s: String| s@) =~= system_symbol_table());
    r
}

/// Whether `name` is one of the built-in symbol names.
pub fn is_system_symbol_name(name: &str) -> (r: bool)
    ensures
        r == is_system_symbol(name@),
{
    let table = system_symbols();
    let target = String::from_str(name);
    let ghost names = table@.map_values(|s: String| s@);
    let mut i: usize = 0;
    while i < table.len()
        invariant
            i <= table@.len(),
            names == table@.map_values(|s: String| s@),
            names == system_symbol_table(),
            target@ == name@,
            forall|j: int| 0 <= j < i ==> names[j] != name@,
        decreases table@.len() - i,
    {
        if table[i] == target {
            assert(names[i as int] == name@);
            return true;
        }
        i = i + 1;
    }
    assert forall|j: int| 0 <= j < names.len() implies names[j] != name@ by {}
    false
}

/// Whether `name` holds the context separator.
pub fn contains_context_separator(name: &str) -> (r: bool)
    ensures
        r == has_context(name@),
{
    let n = name.unicode_len();
    let mut i: usize = 0;
    while i < n
        invariant
            n == name@.len(),
            i <= n,
            forall|j: int| 0 <= j < i ==> name@[j] != context_separator(),
        decreases n - i,
    {
        if name.get_char(i) == '`' {
            return true;
        }
        i = i + 1;
    }
    false
}

/// Qualifies a symbol name: a name with a context, or a built-in name, is
/// kept; any other name is placed in the default context.
pub fn standardized_symbol_name(input: &str) -> (r: String)
    ensures
        r@ == qualified_name(input@),
{
    if contains_context_separator(input) {
        return String::from_str(input);
    }
    if is_system_symbol_name(input) {
        String::from_str(input)
    } else {
        let mut r = String::from_str("Global`");
        r.append(input);
        r
    }
}

} // verus!
