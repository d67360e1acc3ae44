//! Assembly of LaTeX command invocations: `\name[opt]...{arg}...`.
use vstd::prelude::*;

verus! {

/// The command head `\name`.
pub open spec fn command(name: Seq<char>) -> Seq<char> {
    seq!['\\'] + name
}

/// A required argument group `{v}`.
pub open spec fn braced(v: Seq<char>) -> Seq<char> {
    seq!['{'] + v + seq!['}']
}

/// An optional argument group `[v]`.
pub open spec fn bracketed(v: Seq<char>) -> Seq<char> {
    seq!['['] + v + seq![']']
}

/// An optional argument group that disappears when the value is absent.
pub open spec fn optional_group(o: Option<Seq<char>>) -> Seq<char> {
    match o {
        Some(v) => bracketed(v),
        None => Seq::empty(),
    }
}

/// A required group whose value may be absent: absent values give `{}`.
pub open spec fn filled_group(o: Option<Seq<char>>) -> Seq<char> {
    match o {
        Some(v) => braced(v),
        None => braced(Seq::empty()),
    }
}

/// The optional groups in order, absent ones skipped.
pub open spec fn optional_groups(opts: Seq<Option<Seq<char>>>) -> Seq<char>
    decreases opts.len(),
{
    if opts.len() == 0 {
        Seq::empty()
    } else {
        optional_groups(opts.drop_last()) + optional_group(opts.last())
    }
}

/// The required groups in order.
pub open spec fn required_groups(reqs: Seq<Seq<char>>) -> Seq<char>
    decreases reqs.len(),
{
    if reqs.len() == 0 {
        Seq::empty()
    } else {
        required_groups(reqs.drop_last()) + braced(reqs.last())
    }
}

/// A whole invocation in the uniform shape: every optional group before every required one.
pub open spec fn directive(
    name: Seq<char>,
    opts: Seq<Option<Seq<char>>>,
    reqs: Seq<Seq<char>>,
) -> Seq<char> {
    command(name) + optional_groups(opts) + required_groups(reqs)
}

/// The view of an optional string argument.
pub open spec fn opt_view(o: Option<&str>) -> Option<Seq<char>> {
    match o {
        Some(v) => Some(v@),
        None => None,
    }
}

/// Adding one more optional value adds its group at the end.
pub proof fn lemma_optional_groups_push(opts: Seq<Option<Seq<char>>>, o: Option<Seq<char>>)
    ensures
        optional_groups(opts.push(o)) == optional_groups(opts) + optional_group(o),
{
    assert(opts.push(o).drop_last() =~= opts);
}

/// Adding one more required value adds its group at the end.
pub proof fn lemma_required_groups_push(reqs: Seq<Seq<char>>, v: Seq<char>)
    ensures
        required_groups(reqs.push(v)) == required_groups(reqs) + braced(v),
{
    assert(reqs.push(v).drop_last() =~= reqs);
}

/// One required value gives one group.
pub proof fn lemma_required_groups_1(a: Seq<char>)
    ensures
        required_groups(seq![a]) == braced(a),
{
    let e = Seq::<Seq<char>>::empty();
    assert(required_groups(e) == Seq::<char>::empty());
    lemma_required_groups_push(e, a);
    assert(seq![a] =~= e.push(a));
    assert(Seq::<char>::empty() + braced(a) =~= braced(a));
}

/// Two required values give two groups, in order.
pub proof fn lemma_required_groups_2(a: Seq<char>, b: Seq<char>)
    ensures
        required_groups(seq![a, b]) == braced(a) + braced(b),
{
    lemma_required_groups_1(a);
    lemma_required_groups_push(seq![a], b);
    assert(seq![a, b] =~= seq![a].push(b));
}

/// Three required values give three groups, in order.
pub proof fn lemma_required_groups_3(a: Seq<char>, b: Seq<char>, c: Seq<char>)
    ensures
        required_groups(seq![a, b, c]) == braced(a) + braced(b) + braced(c),
{
    lemma_required_groups_2(a, b);
    lemma_required_groups_push(seq![a, b], c);
    assert(seq![a, b, c] =~= seq![a, b].push(c));
}

/// Four required values give four groups, in order.
pub proof fn lemma_required_groups_4(a: Seq<char>, b: Seq<char>, c: Seq<char>, d: Seq<char>)
    ensures
        required_groups(seq![a, b, c, d]) == braced(a) + braced(b) + braced(c) + braced(d),
{
    lemma_required_groups_3(a, b, c);
    lemma_required_groups_push(seq![a, b, c], d);
    assert(seq![a, b, c, d] =~= seq![a, b, c].push(d));
}

/// One optional value gives at most one group.
pub proof fn lemma_optional_groups_1(o: Option<Seq<char>>)
    ensures
        optional_groups(seq![o]) == optional_group(o),
{
    let e = Seq::<Option<Seq<char>>>::empty();
    assert(optional_groups(e) == Seq::<char>::empty());
    lemma_optional_groups_push(e, o);
    assert(seq![o] =~= e.push(o));
    assert(Seq::<char>::empty() + optional_group(o) =~= optional_group(o));
}

/// Two optional values give their groups in order.
pub proof fn lemma_optional_groups_2(o: Option<Seq<char>>, p: Option<Seq<char>>)
    ensures
        optional_groups(seq![o, p]) == optional_group(o) + optional_group(p),
{
    lemma_optional_groups_1(o);
    lemma_optional_groups_push(seq![o], p);
    assert(seq![o, p] =~= seq![o].push(p));
}

/// `\name{v}`: a command with one required value.
pub open spec fn one_arg(name: Seq<char>, v: Seq<char>) -> Seq<char> {
    command(name) + braced(v)
}

/// `\name{a}{b}`.
pub open spec fn two_args(name: Seq<char>, a: Seq<char>, b: Seq<char>) -> Seq<char> {
    command(name) + braced(a) + braced(b)
}

/// `\name{a}{b}{c}`.
pub open spec fn three_args(
    name: Seq<char>,
    a: Seq<char>,
    b: Seq<char>,
    c: Seq<char>,
) -> Seq<char> {
    command(name) + braced(a) + braced(b) + braced(c)
}

/// `\name{a}{b}{c}{d}`.
pub open spec fn four_args(
    name: Seq<char>,
    a: Seq<char>,
    b: Seq<char>,
    c: Seq<char>,
    d: Seq<char>,
) -> Seq<char> {
    command(name) + braced(a) + braced(b) + braced(c) + braced(d)
}

/// Starts an invocation: `\name`.
pub fn start_command(name: &str) -> (r: String)
    ensures
        r@ == command(name@),
{
    let mut s = String::from_str("\\");
    proof {
        reveal_strlit("\\");
    }
    s.append(name);
    s
}

/// Appends the required group `{v}`.
pub fn push_braced(s: &mut String, v: &str)
    ensures
        final(s)@ == old(s)@ + braced(v@),
{
    s.append("{");
    s.append(v);
    s.append("}");
    proof {
        reveal_strlit("{");
        reveal_strlit("}");
    }
    assert(final(s)@ =~= old(s)@ + braced(v@));
}

/// Appends the optional group `[v]`.
pub fn push_bracketed(s: &mut String, v: &str)
    ensures
        final(s)@ == old(s)@ + bracketed(v@),
{
    s.append("[");
    s.append(v);
    s.append("]");
    proof {
        reveal_strlit("[");
        reveal_strlit("]");
    }
    assert(final(s)@ =~= old(s)@ + bracketed(v@));
}

/// Appends `[v]` when the value is present, nothing otherwise.
pub fn push_optional(s: &mut String, o: Option<&str>)
    ensures
        final(s)@ == old(s)@ + optional_group(opt_view(o)),
{
    match o {
        Some(v) => push_bracketed(s, v),
        None => {
            assert(old(s)@ + Seq::<char>::empty() =~= old(s)@);
        },
    }
}

/// Appends `{v}` when the value is present, `{}` otherwise.
pub fn push_filled(s: &mut String, o: Option<&str>)
    ensures
        final(s)@ == old(s)@ + filled_group(opt_view(o)),
{
    match o {
        Some(v) => push_braced(s, v),
        None => {
            push_braced(s, "");
            proof {
                reveal_strlit("");
            }
            assert(""@ =~= Seq::<char>::empty());
        },
    }
}

/// Formats `\name`, then `[o]` for each present optional value in order, then `{r}` for each
/// required value in order.
pub fn texify(name: &str, optionals: &[Option<&str>], requireds: &[&str]) -> (r: String)
    ensures
        r@ == directive(
            name@,
            optionals@.map_values(|o: Option<&str>| opt_view(o)),
            requireds@.map_values(|v: &str| v@),
        ),
{
    let ghost opts = optionals@.map_values(|o: Option<&str>| opt_view(o));
    let ghost reqs = requireds@.map_values(|v: &str| v@);
    let mut s = start_command(name);
    let mut i: usize = 0;
    while i < optionals.len()
        invariant
            0 <= i <= optionals@.len(),
            opts == optionals@.map_values(|o: Option<&str>| opt_view(o)),
            s@ == command(name@) + optional_groups(opts.take(i as int)),
        decreases optionals@.len() - i,
    {
        assert(opts.take(i as int + 1).drop_last() =~= opts.take(i as int));
        push_optional(&mut s, optionals[i]);
        i = i + 1;
    }
    assert(opts.take(optionals@.len() as int) =~= opts);
    assert(reqs.take(0) =~= Seq::<Seq<char>>::empty());
    let mut j: usize = 0;
    while j < requireds.len()
        invariant
            0 <= j <= requireds@.len(),
            reqs == requireds@.map_values(|v: &str| v@),
            s@ == command(name@) + optional_groups(opts) + required_groups(reqs.take(j as int)),
        decreases requireds@.len() - j,
    {
        assert(reqs.take(j as int + 1).drop_last() =~= reqs.take(j as int));
        push_braced(&mut s, requireds[j]);
        j = j + 1;
    }
    assert(reqs.take(requireds@.len() as int) =~= reqs);
    s
}

/// Formats `\name{v}`.
pub fn format_one(name: &str, v: &str) -> (r: String)
    ensures
        r@ == one_arg(name@, v@),
{
    let opts: &[Option<&str>] = &[];
    let reqs: &[&str] = &[v];
    let r = texify(name, opts, reqs);
    proof {
        assert(opts@.map_values(|o: Option<&str>| opt_view(o)) =~= Seq::empty());
        assert(reqs@.map_values(|x: &str| x@) =~= seq![v@]);
        assert(optional_groups(Seq::empty()) == Seq::<char>::empty());
        lemma_required_groups_1(v@);
        assert(r@ =~= one_arg(name@, v@));
    }
    r
}

/// Formats `\name{a}{b}`.
pub fn format_two(name: &str, a: &str, b: &str) -> (r: String)
    ensures
        r@ == two_args(name@, a@, b@),
{
    let opts: &[Option<&str>] = &[];
    let reqs: &[&str] = &[a, b];
    let r = texify(name, opts, reqs);
    proof {
        assert(opts@.map_values(|o: Option<&str>| opt_view(o)) =~= Seq::empty());
        assert(reqs@.map_values(|x: &str| x@) =~= seq![a@, b@]);
        assert(optional_groups(Seq::empty()) == Seq::<char>::empty());
        lemma_required_groups_2(a@, b@);
        assert(r@ =~= two_args(name@, a@, b@));
    }
    r
}

/// Formats `\name{a}{b}{c}`.
pub fn format_three(name: &str, a: &str, b: &str, c: &str) -> (r: String)
    ensures
        r@ == three_args(name@, a@, b@, c@),
{
    let opts: &[Option<&str>] = &[];
    let reqs: &[&str] = &[a, b, c];
    let r = texify(name, opts, reqs);
    proof {
        assert(opts@.map_values(|o: Option<&str>| opt_view(o)) =~= Seq::empty());
        assert(reqs@.map_values(|x: &str| x@) =~= seq![a@, b@, c@]);
        assert(optional_groups(Seq::empty()) == Seq::<char>::empty());
        lemma_required_groups_3(a@, b@, c@);
        assert(r@ =~= three_args(name@, a@, b@, c@));
    }
    r
}

/// Formats `\name{a}{b}{c}{d}`.
pub fn format_four(name: &str, a: &str, b: &str, c: &str, d: &str) -> (r: String)
    ensures
        r@ == four_args(name@, a@, b@, c@, d@),
{
    let opts: &[Option<&str>] = &[];
    let reqs: &[&str] = &[a, b, c, d];
    let r = texify(name, opts, reqs);
    proof {
        assert(opts@.map_values(|o: Option<&str>| opt_view(o)) =~= Seq::empty());
        assert(reqs@.map_values(|x: &str| x@) =~= seq![a@, b@, c@, d@]);
        assert(optional_groups(Seq::empty()) == Seq::<char>::empty());
        lemma_required_groups_4(a@, b@, c@, d@);
        assert(r@ =~= four_args(name@, a@, b@, c@, d@));
    }
    r
}

} // verus!
