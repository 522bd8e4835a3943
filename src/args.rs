//! The three renderings of a method's argument list.
use vstd::prelude::*;
use crate::model::{CppForeignMethodSignature, CppForeignTypeInfo};
use crate::text::{dec, join, lemma_join_take, push_decimal};

verus! {

/// The placeholder that a conversion template holds for the raw argument.
pub const FROM_VAR_TEMPLATE: &'static str = "{from_var}";

/// The identifier of the argument at position `i`: `a_<i>`.
pub open spec fn arg_name(i: nat) -> Seq<char> {
    "a_"@ + dec(i)
}

/// `<type> a_<i>` with the raw C type.
pub open spec fn c_arg(args: Seq<CppForeignTypeInfo>, i: int) -> Seq<char> {
    args[i].name@ + " "@ + arg_name(i as nat)
}

/// The type that the C++ side uses for an argument.
pub open spec fn cpp_type(arg: CppForeignTypeInfo) -> Seq<char> {
    match arg.cpp_converter {
        Some(conv) => conv.typename@,
        None => arg.name@,
    }
}

/// `<type> a_<i>` with the C++ type.
pub open spec fn cpp_arg(args: Seq<CppForeignTypeInfo>, i: int) -> Seq<char> {
    cpp_type(args[i]) + " "@ + arg_name(i as nat)
}

/// `pat` occurs in `t` at position `p`.
pub open spec fn occurs_at(t: Seq<char>, pat: Seq<char>, p: int) -> bool {
    0 <= p && p + pat.len() <= t.len() && t.subrange(p, p + pat.len()) == pat
}

/// `p` is the first position at which `pat` occurs in `t`.
pub open spec fn first_at(t: Seq<char>, pat: Seq<char>, p: int) -> bool {
    occurs_at(t, pat, p) && forall|q: int| 0 <= q < p ==> !occurs_at(t, pat, q)
}

/// `t` with the first occurrence of `pat` replaced by `r`; `t` itself
/// where `pat` does not occur.
pub open spec fn substitute_first(t: Seq<char>, pat: Seq<char>, r: Seq<char>) -> Seq<char> {
    if exists|p: int| first_at(t, pat, p) {
        let p = choose|p: int| first_at(t, pat, p);
        t.take(p) + r + t.skip(p + pat.len())
    } else {
        t
    }
}

/// The expression that forwards argument `i` to the C++ method.
pub open spec fn call_arg(args: Seq<CppForeignTypeInfo>, i: int) -> Seq<char> {
    match args[i].cpp_converter {
        Some(conv) => substitute_first(conv.input_converter@, FROM_VAR_TEMPLATE@, arg_name(i as nat)),
        None => arg_name(i as nat),
    }
}

/// The C argument list, comma separated.
pub open spec fn c_args_list(args: Seq<CppForeignTypeInfo>) -> Seq<char> {
    join(Seq::new(args.len(), |i: int| c_arg(args, i)), ", "@)
}

/// The C argument list, with `", "` after it when asked for and the
/// list is not empty.
pub open spec fn c_args_spec(args: Seq<CppForeignTypeInfo>, trailing_comma: bool) -> Seq<char> {
    if trailing_comma && args.len() > 0 {
        c_args_list(args) + ", "@
    } else {
        c_args_list(args)
    }
}

/// The C++ argument list.
pub open spec fn cpp_args_spec(args: Seq<CppForeignTypeInfo>) -> Seq<char> {
    join(Seq::new(args.len(), |i: int| cpp_arg(args, i)), ", "@)
}

/// The arguments handed on to the C++ method.
pub open spec fn call_args_spec(args: Seq<CppForeignTypeInfo>) -> Seq<char> {
    join(Seq::new(args.len(), |i: int| call_arg(args, i)), ", "@)
}

fn push_arg_name(out: &mut String, i: usize)
    ensures
        final(out)@ == old(out)@ + arg_name(i as nat),
{
    out.append("a_");
    push_decimal(out, i);
    assert(out@ =~= old(out)@ + arg_name(i as nat));
}

/// Renders the arguments as `<C type> a_<i>`, comma separated, with a
/// trailing `", "` when `append_comma_if_not_empty` is set and there is at
/// least one argument.
pub fn c_generate_args_with_types(
    f_method: &CppForeignMethodSignature,
    append_comma_if_not_empty: bool,
) -> (r: Result<String, String>)
    ensures
        r is Ok,
        r matches Ok(s) ==> s@ == c_args_spec(f_method.input@, append_comma_if_not_empty),
{
    let ghost args = f_method.input@;
    let ghost parts = Seq::new(args.len(), |i: int| c_arg(args, i));
    let mut buf = String::new();
    let n = f_method.input.len();
    let mut i: usize = 0;
    while i < n
        invariant
            n == args.len(),
            args == f_method.input@,
            parts == Seq::new(args.len(), |i: int| c_arg(args, i)),
            i <= n,
            buf@ == join(parts.take(i as int), ", "@),
        decreases n - i,
    {
        let ghost before = buf@;
        if i > 0 {
            buf.append(", ");
        }
        buf.append(f_method.input[i].name.as_str());
        buf.append(" ");
        push_arg_name(&mut buf, i);
        proof {
            lemma_join_take(parts, ", "@, i as int);
            if i == 0 {
                assert(buf@ =~= parts[0]);
            } else {
                assert(buf@ =~= before + ", "@ + parts[i as int]);
            }
        }
        i = i + 1;
    }
    assert(parts.take(n as int) =~= parts);
    if n > 0 && append_comma_if_not_empty {
        buf.append(", ");
    }
    Ok(buf)
}

/// Renders the arguments as `<C++ type> a_<i>`, comma separated, where the
/// C++ type is the conversion's type when there is one, else the raw type.
pub fn cpp_generate_args_with_types(f_method: &CppForeignMethodSignature) -> (r: Result<String, String>)
    ensures
        r is Ok,
        r matches Ok(s) ==> s@ == cpp_args_spec(f_method.input@),
{
    let ghost args = f_method.input@;
    let ghost parts = Seq::new(args.len(), |i: int| cpp_arg(args, i));
    let mut ret = String::new();
    let n = f_method.input.len();
    let mut i: usize = 0;
    while i < n
        invariant
            n == args.len(),
            args == f_method.input@,
            parts == Seq::new(args.len(), |i: int| cpp_arg(args, i)),
            i <= n,
            ret@ == join(parts.take(i as int), ", "@),
        decreases n - i,
    {
        let ghost before = ret@;
        if i > 0 {
            ret.append(", ");
        }
        let arg = &f_method.input[i];
        match &arg.cpp_converter {
            Some(conv) => ret.append(conv.typename.as_str()),
            None => ret.append(arg.name.as_str()),
        }
        ret.append(" ");
        push_arg_name(&mut ret, i);
        proof {
            lemma_join_take(parts, ", "@, i as int);
            if i == 0 {
                assert(ret@ =~= parts[0]);
            } else {
                assert(ret@ =~= before + ", "@ + parts[i as int]);
            }
        }
        i = i + 1;
    }
    assert(parts.take(n as int) =~= parts);
    Ok(ret)
}


fn occurs_at_exec(t: &str, pat: &str, p: usize) -> (r: bool)
    requires
        p + pat@.len() <= t@.len(),
        t@.len() <= usize::MAX,
    ensures
        r == occurs_at(t@, pat@, p as int),
{
    let n = pat.unicode_len();
    let mut j: usize = 0;
    while j < n
        invariant
            n == pat@.len(),
            p + n <= t@.len(),
            t@.len() <= usize::MAX,
            j <= n,
            forall|k: int| 0 <= k < j ==> t@[p + k] == pat@[k],
        decreases n - j,
    {
        if t.get_char(p + j) != pat.get_char(j) {
            assert(t@.subrange(p as int, p + n)[j as int] != pat@[j as int]);
            return false;
        }
        j = j + 1;
    }
    assert(t@.subrange(p as int, p + n) =~= pat@);
    true
}

/// The first position at which `pat` occurs in `t`, if any.
fn find_first(t: &str, pat: &str) -> (r: Option<usize>)
    ensures
        r matches Some(p) ==> first_at(t@, pat@, p as int),
        r is None ==> forall|p: int| !occurs_at(t@, pat@, p),
{
    let tl = t.unicode_len();
    let pl = pat.unicode_len();
    if pl > tl {
        return None;
    }
    let mut p: usize = 0;
    while p <= tl - pl
        invariant
            tl == t@.len(),
            pl == pat@.len(),
            pl <= tl,
            p <= tl - pl + 1,
            forall|q: int| 0 <= q < p ==> !occurs_at(t@, pat@, q),
        decreases tl - pl + 1 - p,
    {
        if occurs_at_exec(t, pat, p) {
            return Some(p);
        }
        if p == tl - pl {
            return None;
        }
        p = p + 1;
    }
    None
}

/// Appends `t` with its first occurrence of `pat` replaced by `r`.
fn push_substituted(out: &mut String, t: &str, pat: &str, r: &str)
    ensures
        final(out)@ == old(out)@ + substitute_first(t@, pat@, r@),
{
    match find_first(t, pat) {
        Some(p) => {
            let tl = t.unicode_len();
            let pl = pat.unicode_len();
            out.append(t.substring_char(0, p));
            out.append(r);
            out.append(t.substring_char(p + pl, tl));
            proof {
                assert(exists|q: int| first_at(t@, pat@, q));
                let c = choose|q: int| first_at(t@, pat@, q);
                assert(c == p) by {
                    if c < p {
                        assert(!occurs_at(t@, pat@, c));
                    } else if c > p {
                        assert(!occurs_at(t@, pat@, p as int));
                    }
                }
                assert(out@ =~= old(out)@ + substitute_first(t@, pat@, r@));
            }
        },
        None => {
            out.append(t);
        },
    }
}

/// Renders the arguments handed on from a C trampoline to the C++ method:
/// `a_<i>` where the argument has no conversion, else the conversion's
/// template with its first placeholder replaced by `a_<i>`.
pub fn cpp_generate_args_to_call_c(f_method: &CppForeignMethodSignature) -> (r: Result<String, String>)
    ensures
        r is Ok,
        r matches Ok(s) ==> s@ == call_args_spec(f_method.input@),
{
    let ghost args = f_method.input@;
    let ghost parts = Seq::new(args.len(), |i: int| call_arg(args, i));
    let mut ret = String::new();
    let n = f_method.input.len();
    let mut i: usize = 0;
    while i < n
        invariant
            n == args.len(),
            args == f_method.input@,
            parts == Seq::new(args.len(), |i: int| call_arg(args, i)),
            i <= n,
            ret@ == join(parts.take(i as int), ", "@),
        decreases n - i,
    {
        let ghost before = ret@;
        if i > 0 {
            ret.append(", ");
        }
        let ghost mid = ret@;
        match &f_method.input[i].cpp_converter {
            Some(conv) => {
                let mut arg_name = String::new();
                push_arg_name(&mut arg_name, i);
                push_substituted(&mut ret, conv.input_converter.as_str(), FROM_VAR_TEMPLATE, arg_name.as_str());
            },
            None => push_arg_name(&mut ret, i),
        }
        proof {
            assert(ret@ =~= mid + parts[i as int]);
            lemma_join_take(parts, ", "@, i as int);
            if i == 0 {
                assert(ret@ =~= parts[0]);
            } else {
                assert(ret@ =~= before + ", "@ + parts[i as int]);
            }
        }
        i = i + 1;
    }
    assert(parts.take(n as int) =~= parts);
    Ok(ret)
}

} // verus!
