//! Symbol names of compiled functions.
use vstd::prelude::*;

use std::rc::Rc;

verus! {

/// Appends `c` to `s`.
///
/// Trusted: calls `String::push` from std, which appends the character at the
/// end of the string; the contract states exactly that.
#[verifier::external_body]
fn push_char(s: &mut String, c: char)
    ensures
        final(s)@ == old(s)@.push(c),
{
    s.push(c);
}

/// The characters of `s`, in order.
fn chars_of(s: &str) -> (v: Vec<char>)
    ensures
        v@ == s@,
{
    let mut v: Vec<char> = Vec::new();
    for c in it: s.chars()
        invariant
            it.seq() == s@,
            v@ == it.seq().take(it.index() as int),
    {
        v.push(c);
    }
    v
}

/// The character of the decimal digit `d`.
pub open spec fn digit_char(d: nat) -> char {
    (d + 48) as char
}

/// The decimal representation of `n`, as `to_string` writes it: no sign and
/// no leading zero.
pub open spec fn decimal(n: nat) -> Seq<char>
    decreases n,
{
    if n < 10 {
        seq![digit_char(n)]
    } else {
        decimal(n / 10).push(digit_char(n % 10))
    }
}

/// Appends the decimal representation of `n` to `out`.
fn write_decimal(out: &mut String, n: u32)
    ensures
        final(out)@ == old(out)@ + decimal(n as nat),
    decreases n,
{
    if n >= 10 {
        write_decimal(out, n / 10);
    }
    let d: u8 = (n % 10) as u8;
    push_char(out, (48u8 + d) as char);
    proof {
        assert(old(out)@ + decimal(n as nat) =~= final(out)@);
    }
}

/// `name` with each `::` path separator, taken from the left, replaced by `$`.
pub open spec fn mangle_path(name: Seq<char>) -> Seq<char>
    decreases name.len(),
{
    if name.len() < 2 {
        name
    } else if name[0] == ':' && name[1] == ':' {
        seq!['$'] + mangle_path(name.skip(2))
    } else {
        seq![name[0]] + mangle_path(name.skip(1))
    }
}

/// `name` with each `::` replaced by `$`, as `str::replace` does it.
fn replace_path_separators(name: &str) -> (res: String)
    ensures
        res@ == mangle_path(name@),
{
    let chars = chars_of(name);
    let n = chars.len();
    let mut res = String::new();
    let mut i: usize = 0;
    assert(name@.skip(0) =~= name@);
    assert(res@ + mangle_path(name@) =~= mangle_path(name@));
    while i < n
        invariant
            n == chars@.len(),
            chars@ == name@,
            i <= n,
            mangle_path(name@) == res@ + mangle_path(name@.skip(i as int)),
        decreases n - i,
    {
        let ghost rest = name@.skip(i as int);
        if i + 1 < n && chars[i] == ':' && chars[i + 1] == ':' {
            assert(rest.skip(2) =~= name@.skip(i + 2));
            push_char(&mut res, '$');
            i = i + 2;
        } else {
            if i + 1 < n {
                assert(rest.skip(1) =~= name@.skip(i + 1));
            } else {
                assert(rest =~= seq![chars@[i as int]]);
                assert(name@.skip(i + 1) =~= Seq::<char>::empty());
            }
            push_char(&mut res, chars[i]);
            i = i + 1;
        }
    }
    assert(name@.skip(n as int) =~= Seq::<char>::empty());
    assert(res@ + Seq::<char>::empty() =~= res@);
    res
}

/// Identifies the type of a value in the intermediate representation.
#[derive(Debug, Clone, Copy, PartialEq, Eq, Hash, Structural)]
pub struct TypeId(pub u32);

/// A parameter of a function.
#[derive(Debug, Clone, Copy, PartialEq, Eq, Hash, Structural)]
pub struct FunctionParam {
    pub ty: TypeId,
}

/// What code generation knows of a function.
#[derive(Debug, Clone)]
pub struct FunctionData {
    /// The name of the module that defines the function.
    pub module_name: String,
    /// The function's name, behind the name of its class when it has one
    /// (`Class::method`).
    pub name_with_class: String,
    /// The function's parameters, in order.
    pub params: Vec<FunctionParam>,
}

/// Identifies a function: an index into `CodegenDb::functions`.
#[derive(Debug, Clone, Copy, PartialEq, Eq, Hash, Structural)]
pub struct FunctionId(pub u32);

/// The functions of a code generation session: `FunctionId(i)` stands for
/// `functions[i]`.
pub struct CodegenDb {
    pub functions: Vec<FunctionData>,
}

impl CodegenDb {
    /// `id` names a function of this database.
    pub open spec fn contains(self, id: FunctionId) -> bool {
        (id.0 as int) < self.functions@.len()
    }

    /// The function that `id` names.
    pub open spec fn function(self, id: FunctionId) -> FunctionData {
        self.functions@[id.0 as int]
    }
}

/// The decimal numbers of the parameters' types, one after the other.
pub open spec fn type_suffix(params: Seq<FunctionParam>) -> Seq<char>
    decreases params.len(),
{
    if params.len() == 0 {
        Seq::empty()
    } else {
        type_suffix(params.drop_last()) + decimal(params.last().ty.0 as nat)
    }
}

/// The symbol of a function: its module's name, `$`, its name with `$` for
/// each `::`, `_`, and the numbers of its parameters' types.
pub open spec fn symbol_of(f: FunctionData) -> Seq<char> {
    f.module_name@ + seq!['$'] + mangle_path(f.name_with_class@) + seq!['_'] + type_suffix(
        f.params@,
    )
}

/// The symbol name under which `function` is emitted. The parameters' types
/// are part of it so that each monomorphized copy of a function gets a name
/// of its own.
pub fn symbol_name(db: &CodegenDb, function: FunctionId) -> (name: Rc<String>)
    requires
        db.contains(function),
    ensures
        name@ == symbol_of(db.function(function)),
        name@ == db.function(function).module_name@ + seq!['$'] + mangle_path(
            db.function(function).name_with_class@,
        ) + seq!['_'] + type_suffix(db.function(function).params@),
{
    let data = &db.functions[function.0 as usize];
    let mut suffix = String::new();
    let n = data.params.len();
    for i in 0..n
        invariant
            n == data.params@.len(),
            data == db.function(function),
            suffix@ == type_suffix(data.params@.take(i as int)),
    {
        assert(data.params@.take(i + 1).drop_last() =~= data.params@.take(i as int));
        write_decimal(&mut suffix, data.params[i].ty.0);
    }
    assert(data.params@.take(n as int) =~= data.params@);
    let func_name = replace_path_separators(data.name_with_class.as_str());
    let mut name = data.module_name.clone();
    push_char(&mut name, '$');
    let name = name.concat(func_name.as_str());
    let mut name = name;
    push_char(&mut name, '_');
    let name = name.concat(suffix.as_str());
    Rc::new(name)
}

/// `s` holds the path separator `::` somewhere.
pub open spec fn has_path_separator(s: Seq<char>) -> bool {
    exists|j: int| 0 <= j < s.len() - 1 && #[trigger] s[j] == ':' && s[j + 1] == ':'
}

/// A mangled name holds no `::`, is empty only when the name is, and starts
/// with a colon only where the name starts with a lone one.
pub proof fn lemma_mangled_has_no_path_separator(name: Seq<char>)
    ensures
        !has_path_separator(mangle_path(name)),
        mangle_path(name).len() == 0 <==> name.len() == 0,
        mangle_path(name).len() > 0 && mangle_path(name)[0] == ':' ==> name[0] == ':' && (
        name.len() == 1 || name[1] != ':'),
    decreases name.len(),
{
    let m = mangle_path(name);
    if name.len() < 2 {
        if name.len() == 1 {
            assert forall|j: int| 0 <= j < m.len() - 1 implies !(#[trigger] m[j] == ':' && m[j
                + 1] == ':') by {}
        }
    } else {
        let (head, rest) = if name[0] == ':' && name[1] == ':' {
            ('$', name.skip(2))
        } else {
            (name[0], name.skip(1))
        };
        lemma_mangled_has_no_path_separator(rest);
        let mr = mangle_path(rest);
        assert(m == seq![head] + mr);
        assert forall|j: int| 0 <= j < m.len() - 1 implies !(#[trigger] m[j] == ':' && m[j
            + 1] == ':') by {
            if j == 0 {
                if head == ':' {
                    assert(m[1] == mr[0]);
                    assert(rest[0] == name[1]);
                }
            } else {
                assert(m[j] == mr[j - 1]);
                assert(m[j + 1] == mr[j]);
            }
        }
    }
}

/// A name without `::` is kept as it is.
pub proof fn lemma_mangle_keeps_plain_names(name: Seq<char>)
    requires
        !has_path_separator(name),
    ensures
        mangle_path(name) == name,
    decreases name.len(),
{
    if name.len() >= 2 {
        let rest = name.skip(1);
        assert(!(name[0] == ':' && name[1] == ':'));
        assert forall|j: int| 0 <= j < rest.len() - 1 implies !(#[trigger] rest[j] == ':' && rest[j
            + 1] == ':') by {
            assert(rest[j] == name[j + 1]);
            assert(rest[j + 1] == name[j + 2]);
        }
        lemma_mangle_keeps_plain_names(rest);
        assert(seq![name[0]] + rest =~= name);
    }
}

/// The number that a string of decimal digits denotes.
pub open spec fn decimal_value(s: Seq<char>) -> int
    decreases s.len(),
{
    if s.len() == 0 {
        0
    } else {
        decimal_value(s.drop_last()) * 10 + (s.last() as int - 48)
    }
}

/// The decimal representation of `n` is a non-empty string of digits, with
/// no leading zero unless it is `0` itself, and it denotes `n`.
pub proof fn lemma_decimal_denotes(n: nat)
    ensures
        decimal(n).len() > 0,
        decimal(n).len() == 1 <==> n < 10,
        forall|i: int| 0 <= i < decimal(n).len() ==> '0' <= #[trigger] decimal(n)[i] <= '9',
        decimal(n).len() > 1 ==> decimal(n)[0] != '0',
        decimal_value(decimal(n)) == n,
    decreases n,
{
    assert(digit_char(n % 10) as int == n % 10 + 48);
    if n < 10 {
        assert(n % 10 == n);
        assert(decimal(n).drop_last() =~= Seq::<char>::empty());
        assert(decimal_value(Seq::<char>::empty()) == 0);
    } else {
        lemma_decimal_denotes(n / 10);
        let s = decimal(n);
        assert(s.drop_last() =~= decimal(n / 10));
        assert forall|i: int| 0 <= i < s.len() implies '0' <= #[trigger] s[i] <= '9' by {
            if i < s.len() - 1 {
                assert(s[i] == decimal(n / 10)[i]);
            }
        }
        assert(n == (n / 10) * 10 + n % 10 && n / 10 >= 1) by (nonlinear_arith)
            requires
                n >= 10,
        ;
        if n / 10 < 10 {
            assert(decimal(n / 10) == seq![digit_char(n / 10)]);
            assert(digit_char(n / 10) as int == n / 10 + 48);
        }
    }
}

/// The type suffix of no parameters is empty, and one more parameter appends
/// the decimal number of its type: every parameter counts, in order.
pub proof fn lemma_type_suffix_push(params: Seq<FunctionParam>, p: FunctionParam)
    ensures
        type_suffix(Seq::<FunctionParam>::empty()) == Seq::<char>::empty(),
        type_suffix(params.push(p)) == type_suffix(params) + decimal(p.ty.0 as nat),
        type_suffix(seq![p]) == decimal(p.ty.0 as nat),
{
    assert(params.push(p).drop_last() =~= params);
    assert(seq![p].drop_last() =~= Seq::<FunctionParam>::empty());
    assert(Seq::<char>::empty() + decimal(p.ty.0 as nat) =~= decimal(p.ty.0 as nat));
}

/// The type suffix of two parameter lists one after the other is their
/// suffixes one after the other.
pub proof fn lemma_type_suffix_concat(a: Seq<FunctionParam>, b: Seq<FunctionParam>)
    ensures
        type_suffix(a + b) == type_suffix(a) + type_suffix(b),
    decreases b.len(),
{
    if b.len() == 0 {
        assert(a + b =~= a);
        assert(type_suffix(a) + Seq::<char>::empty() =~= type_suffix(a));
    } else {
        let b0 = b.drop_last();
        lemma_type_suffix_concat(a, b0);
        assert((a + b).drop_last() =~= a + b0);
        assert((a + b).last() == b.last());
        assert(type_suffix(a) + type_suffix(b0) + decimal(b.last().ty.0 as nat) =~= type_suffix(a)
            + (type_suffix(b0) + decimal(b.last().ty.0 as nat)));
    }
}

/// A leading `::` becomes `$`, and the rest is mangled on its own.
pub proof fn lemma_mangle_separator(rest: Seq<char>)
    ensures
        mangle_path(seq![':', ':'] + rest) == seq!['$'] + mangle_path(rest),
{
    let s = seq![':', ':'] + rest;
    assert(s.skip(2) =~= rest);
}

/// A leading part without `::` that does not end in `:` is kept as it is,
/// and the rest is mangled on its own.
pub proof fn lemma_mangle_plain_prefix(plain: Seq<char>, rest: Seq<char>)
    requires
        !has_path_separator(plain),
        plain.len() == 0 || plain.last() != ':',
    ensures
        mangle_path(plain + rest) == plain + mangle_path(rest),
    decreases plain.len(),
{
    if plain.len() == 0 {
        assert(plain + rest =~= rest);
        assert(plain + mangle_path(rest) =~= mangle_path(rest));
    } else {
        let s = plain + rest;
        let tail = plain.skip(1);
        assert forall|j: int| 0 <= j < tail.len() - 1 implies !(#[trigger] tail[j] == ':' && tail[j
            + 1] == ':') by {
            assert(tail[j] == plain[j + 1]);
            assert(tail[j + 1] == plain[j + 2]);
        }
        if tail.len() > 0 {
            assert(tail.last() == plain.last());
        }
        lemma_mangle_plain_prefix(tail, rest);
        assert(s.skip(1) =~= tail + rest);
        if s.len() < 2 {
            assert(rest.len() == 0);
            assert(mangle_path(rest) =~= rest);
            assert(plain + rest =~= plain + mangle_path(rest));
        } else {
            if plain.len() == 1 {
                assert(plain[0] != ':');
            } else {
                assert(!(plain[0] == ':' && plain[1] == ':'));
                assert(s[1] == plain[1]);
            }
            assert(mangle_path(s) == seq![plain[0]] + mangle_path(tail + rest));
            assert(seq![plain[0]] + (tail + mangle_path(rest)) =~= plain + mangle_path(rest));
        }
    }
}

} // verus!
