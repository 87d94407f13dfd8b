//! Registering HandyX's global shortcuts with GNOME through `gsettings`:
//! reading the list of custom keybindings, adding or removing HandyX's entry,
//! and the `gsettings set` calls that store it.

use vstd::prelude::*;
use crate::text::{chars_of, concat, is_white, owned, string_from_chars, trim, trim_start, trim_str};

verus! {

/// `s` split at every `sep`, keeping empty pieces (`str::split`): the pieces
/// finished so far and the one being read.
pub open spec fn split_acc(s: Seq<char>, sep: char) -> (Seq<Seq<char>>, Seq<char>)
    decreases s.len(),
{
    if s.len() == 0 {
        (seq![], seq![])
    } else {
        let (done, cur) = split_acc(s.drop_last(), sep);
        if s.last() == sep {
            (done.push(cur), seq![])
        } else {
            (done, cur.push(s.last()))
        }
    }
}

/// `s` split at every `sep` (`str::split` with a `char`).
pub open spec fn split(s: Seq<char>, sep: char) -> Seq<Seq<char>> {
    split_acc(s, sep).0.push(split_acc(s, sep).1)
}

/// `s` without any leading `c` (`str::trim_start_matches` with a `char`).
pub open spec fn strip_start(s: Seq<char>, c: char) -> Seq<char>
    decreases s.len(),
{
    if s.len() > 0 && s[0] == c {
        strip_start(s.drop_first(), c)
    } else {
        s
    }
}

/// `s` without any trailing `c`.
pub open spec fn strip_end(s: Seq<char>, c: char) -> Seq<char>
    decreases s.len(),
{
    if s.len() > 0 && s.last() == c {
        strip_end(s.drop_last(), c)
    } else {
        s
    }
}

/// `str::trim_matches` with a `char`.
pub open spec fn strip(s: Seq<char>, c: char) -> Seq<char> {
    strip_end(strip_start(s, c), c)
}

/// One entry of the list as read: trimmed, then stripped of single and then
/// double quotes.
pub open spec fn clean_entry(s: Seq<char>) -> Seq<char> {
    strip(strip(trim(s), '\''), '"')
}

/// The non-empty cleaned entries of `pieces`, in order.
pub open spec fn clean_entries(pieces: Seq<Seq<char>>) -> Seq<Seq<char>>
    decreases pieces.len(),
{
    if pieces.len() == 0 {
        seq![]
    } else {
        let rest = clean_entries(pieces.drop_last());
        let e = clean_entry(pieces.last());
        if e.len() == 0 {
            rest
        } else {
            rest.push(e)
        }
    }
}

/// The keybinding paths in what `gsettings get` printed: when the trimmed
/// output is a bracketed list, its comma-separated entries cleaned and the
/// empty ones dropped; otherwise (such as `@as []`) none.
pub open spec fn parse_list(output: Seq<char>) -> Seq<Seq<char>> {
    let t = trim(output);
    if t.len() > 0 && t[0] == '[' && t.last() == ']' {
        clean_entries(split(t.subrange(1, t.len() - 1), ','))
    } else {
        seq![]
    }
}

/// One path as `gsettings` lists it: in single quotes.
pub open spec fn quoted(p: Seq<char>) -> Seq<char> {
    seq!['\''] + p + seq!['\'']
}

/// The quoted paths joined by `", "`.
pub open spec fn join_quoted(paths: Seq<Seq<char>>) -> Seq<char>
    decreases paths.len(),
{
    if paths.len() == 0 {
        seq![]
    } else if paths.len() == 1 {
        quoted(paths[0])
    } else {
        join_quoted(paths.drop_last()) + ", "@ + quoted(paths.last())
    }
}

/// The list in `gsettings` syntax: `['a', 'b']`.
pub open spec fn format_list(paths: Seq<Seq<char>>) -> Seq<char> {
    seq!['['] + join_quoted(paths) + seq![']']
}

/// `paths` with `path` added at the end unless it is already there.
pub open spec fn with_path(paths: Seq<Seq<char>>, path: Seq<char>) -> Seq<Seq<char>> {
    if paths.contains(path) {
        paths
    } else {
        paths.push(path)
    }
}

/// `paths` without any entry equal to `path`, in order.
pub open spec fn without_path(paths: Seq<Seq<char>>, path: Seq<char>) -> Seq<Seq<char>>
    decreases paths.len(),
{
    if paths.len() == 0 {
        seq![]
    } else if paths.last() == path {
        without_path(paths.drop_last(), path)
    } else {
        without_path(paths.drop_last(), path).push(paths.last())
    }
}

/// The view of a list of strings.
pub open spec fn strings_view(v: Seq<String>) -> Seq<Seq<char>> {
    v.map_values(|s: String| s@)
}

fn strip_chars(v: &Vec<char>, c: char) -> (r: Vec<char>)
    ensures
        r@ == strip(v@, c),
{
    let n = v.len();
    let mut i: usize = 0;
    assert(v@.subrange(0, n as int) =~= v@);
    while i < n && v[i] == c
        invariant
            i <= n,
            n == v@.len(),
            forall|k: int| 0 <= k < i ==> #[trigger] v@[k] == c,
            strip_start(v@, c) == strip_start(v@.subrange(i as int, n as int), c),
        decreases n - i,
    {
        proof {
            let t = v@.subrange(i as int, n as int);
            assert(t.drop_first() =~= v@.subrange(i + 1, n as int));
        }
        i = i + 1;
    }
    let mut j: usize = n;
    while j > i && v[j - 1] == c
        invariant
            i <= j <= n,
            n == v@.len(),
            strip_end(v@.subrange(i as int, n as int), c) == strip_end(
                v@.subrange(i as int, j as int),
                c,
            ),
        decreases j,
    {
        proof {
            let t = v@.subrange(i as int, j as int);
            assert(t.drop_last() =~= v@.subrange(i as int, j - 1));
        }
        j = j - 1;
    }
    proof {
        let t = v@.subrange(i as int, n as int);
        if i < n {
            assert(t[0] == v@[i as int]);
        }
        assert(strip_start(t, c) == t);
        let u = v@.subrange(i as int, j as int);
        if j > i {
            assert(u.last() == v@[j - 1]);
        }
        assert(strip_end(u, c) == u);
    }
    let mut r: Vec<char> = Vec::new();
    let mut k = i;
    while k < j
        invariant
            i <= k <= j <= n,
            n == v@.len(),
            r@ == v@.subrange(i as int, k as int),
        decreases j - k,
    {
        r.push(v[k]);
        assert(v@.subrange(i as int, k + 1) =~= v@.subrange(i as int, k as int).push(v@[k as int]));
        k = k + 1;
    }
    r
}


fn clean_entry_exec(piece: &Vec<char>) -> (r: String)
    ensures
        r@ == clean_entry(piece@),
{
    let s = string_from_chars(piece, 0, piece.len());
    assert(piece@.subrange(0, piece@.len() as int) =~= piece@);
    let t = trim_str(s.as_str());
    let tv = chars_of(t.as_str());
    let a = strip_chars(&tv, '\'');
    let b = strip_chars(&a, '"');
    let r = string_from_chars(&b, 0, b.len());
    assert(b@.subrange(0, b@.len() as int) =~= b@);
    r
}

/// The keybinding paths in what `gsettings get ... custom-keybindings`
/// printed.
pub fn parse_keybinding_list(output: &str) -> (r: Vec<String>)
    ensures
        strings_view(r@) == parse_list(output@),
{
    let t = trim_str(output);
    let tv = chars_of(t.as_str());
    let len = tv.len();
    if !(len > 0 && tv[0] == '[' && tv[len - 1] == ']') {
        let r: Vec<String> = Vec::new();
        assert(strings_view(r@) =~= Seq::<Seq<char>>::empty());
        return r;
    }
    if len == 1 {
        let r: Vec<String> = Vec::new();
        assert(strings_view(r@) =~= Seq::<Seq<char>>::empty());
        return r;
    }
    let ghost inner = tv@.subrange(1, len - 1);
    let m = len - 2;
    let mut out: Vec<String> = Vec::new();
    let mut cur: Vec<char> = Vec::new();
    let mut k: usize = 0;
    while k < m
        invariant
            m + 2 == len,
            len == tv@.len(),
            inner == tv@.subrange(1, len - 1),
            k <= m,
            strings_view(out@) == clean_entries(split_acc(inner.take(k as int), ',').0),
            cur@ == split_acc(inner.take(k as int), ',').1,
        decreases m - k,
    {
        let c = tv[k + 1];
        assert(inner.take(k + 1).drop_last() =~= inner.take(k as int));
        assert(inner.take(k + 1).last() == c);
        if c == ',' {
            proof {
                let d = split_acc(inner.take(k as int), ',').0;
                assert(d.push(cur@).drop_last() =~= d);
                assert(d.push(cur@).last() == cur@);
            }
            let e = clean_entry_exec(&cur);
            let ghost before = out@;
            if e.unicode_len() > 0 {
                out.push(e);
                assert(strings_view(out@) =~= strings_view(before).push(e@));
            }
            cur = Vec::new();
            assert(cur@ =~= Seq::<char>::empty());
        } else {
            cur.push(c);
        }
        k = k + 1;
    }
    assert(inner.take(m as int) =~= inner);
    let e = clean_entry_exec(&cur);
    let ghost before = out@;
    if e.unicode_len() > 0 {
        out.push(e);
        assert(strings_view(out@) =~= strings_view(before).push(e@));
    }
    proof {
        let sp = split(inner, ',');
        assert(sp.drop_last() =~= split_acc(inner, ',').0);
        assert(sp.last() == split_acc(inner, ',').1);
    }
    out
}


fn quote_exec(p: &str) -> (r: String)
    ensures
        r@ == quoted(p@),
{
    let a = concat("'", p);
    let r = concat(a.as_str(), "'");
    proof {
        reveal_strlit("'");
        assert(r@ =~= quoted(p@));
    }
    r
}

/// The list in `gsettings` syntax.
pub fn format_keybinding_list(paths: &Vec<String>) -> (r: String)
    ensures
        r@ == format_list(strings_view(paths@)),
{
    let ghost pv = strings_view(paths@);
    let mut body = String::new();
    let n = paths.len();
    let mut i: usize = 0;
    while i < n
        invariant
            n == paths@.len(),
            pv == strings_view(paths@),
            i <= n,
            body@ == join_quoted(pv.take(i as int)),
        decreases n - i,
    {
        let q = quote_exec(paths[i].as_str());
        if i > 0 {
            body = concat(body.as_str(), ", ");
        }
        body = concat(body.as_str(), q.as_str());
        proof {
            reveal_strlit(", ");
            assert(pv.take(i + 1).drop_last() =~= pv.take(i as int));
            assert(pv.take(i + 1).last() == pv[i as int]);
            if i == 0 {
                assert(pv.take(1)[0] == pv[0]);
            }
        }
        i = i + 1;
    }
    assert(pv.take(n as int) =~= pv);
    let a = concat("[", body.as_str());
    let r = concat(a.as_str(), "]");
    proof {
        reveal_strlit("[");
        reveal_strlit("]");
        assert(r@ =~= format_list(pv));
    }
    r
}

/// Whether `paths` holds `path`.
pub fn has_path(paths: &Vec<String>, path: &str) -> (r: bool)
    ensures
        r == strings_view(paths@).contains(path@),
{
    let n = paths.len();
    let mut i: usize = 0;
    while i < n
        invariant
            n == paths@.len(),
            i <= n,
            forall|k: int| 0 <= k < i ==> paths@[k]@ != path@,
        decreases n - i,
    {
        if crate::text::str_eq(paths[i].as_str(), path) {
            assert(strings_view(paths@)[i as int] == path@);
            return true;
        }
        i = i + 1;
    }
    proof {
        if strings_view(paths@).contains(path@) {
            let k = choose|k: int| 0 <= k < n && strings_view(paths@)[k] == path@;
            assert(paths@[k]@ == path@);
        }
    }
    false
}

/// `paths` with `path` added at the end unless it is already there.
pub fn add_path(paths: Vec<String>, path: &str) -> (r: Vec<String>)
    ensures
        strings_view(r@) == with_path(strings_view(paths@), path@),
{
    if has_path(&paths, path) {
        paths
    } else {
        let mut r = paths;
        let ghost before = r@;
        r.push(owned(path));
        assert(strings_view(r@) =~= strings_view(before).push(path@));
        r
    }
}

/// `paths` without `path`.
pub fn remove_path(paths: &Vec<String>, path: &str) -> (r: Vec<String>)
    ensures
        strings_view(r@) == without_path(strings_view(paths@), path@),
{
    let ghost pv = strings_view(paths@);
    let mut r: Vec<String> = Vec::new();
    let n = paths.len();
    let mut i: usize = 0;
    while i < n
        invariant
            n == paths@.len(),
            pv == strings_view(paths@),
            i <= n,
            strings_view(r@) == without_path(pv.take(i as int), path@),
        decreases n - i,
    {
        assert(pv.take(i + 1).drop_last() =~= pv.take(i as int));
        assert(pv.take(i + 1).last() == pv[i as int]);
        if !crate::text::str_eq(paths[i].as_str(), path) {
            let ghost before = r@;
            r.push(paths[i].clone());
            assert(strings_view(r@) =~= strings_view(before).push(pv[i as int]));
        }
        i = i + 1;
    }
    assert(pv.take(n as int) =~= pv);
    r
}

/// What registering a shortcut amounts to: the new list of keybinding
/// paths, the `gsettings` argument lists to run in order, and the message
/// printed afterwards.
pub struct ShortcutPlan {
    pub paths: Vec<String>,
    pub commands: Vec<Vec<String>>,
    pub message: String,
}

/// The view of a list of argument lists.
pub open spec fn commands_view(c: Seq<Vec<String>>) -> Seq<Seq<Seq<char>>> {
    c.map_values(|a: Vec<String>| strings_view(a@))
}

/// The `gsettings` schema that holds the list of custom keybindings.
pub open spec fn media_keys_schema() -> Seq<char> {
    "org.gnome.settings-daemon.plugins.media-keys"@
}

/// The command that runs the HandyX subcommand `subcmd`.
pub open spec fn trigger_command(bin: Seq<char>, subcmd: Seq<char>) -> Seq<char> {
    bin + " "@ + subcmd
}

/// The `gsettings` calls that store the list and the keybinding's name,
/// command and binding.
pub open spec fn registration_commands(
    paths: Seq<Seq<char>>,
    schema: Seq<char>,
    name: Seq<char>,
    command: Seq<char>,
    binding: Seq<char>,
) -> Seq<Seq<Seq<char>>> {
    seq![
        seq!["set"@, media_keys_schema(), "custom-keybindings"@, format_list(paths)],
        seq!["set"@, schema, "name"@, quoted(name)],
        seq!["set"@, schema, "command"@, quoted(command)],
        seq!["set"@, schema, "binding"@, quoted(binding)],
    ]
}

/// The arguments of `gsettings` that print the current list of custom
/// keybindings.
pub fn keybinding_list_query() -> (r: Vec<String>)
    ensures
        strings_view(r@) == seq!["get"@, media_keys_schema(), "custom-keybindings"@],
{
    let mut r: Vec<String> = Vec::new();
    r.push(owned("get"));
    r.push(owned("org.gnome.settings-daemon.plugins.media-keys"));
    r.push(owned("custom-keybindings"));
    assert(strings_view(r@) =~= seq!["get"@, media_keys_schema(), "custom-keybindings"@]);
    r
}

fn args4(a: String, b: String, c: String, d: String) -> (r: Vec<String>)
    ensures
        strings_view(r@) == seq![a@, b@, c@, d@],
{
    let mut r: Vec<String> = Vec::new();
    r.push(a);
    r.push(b);
    r.push(c);
    r.push(d);
    assert(strings_view(r@) =~= seq![a@, b@, c@, d@]);
    r
}

/// Registers the keybinding at `path`: given what `gsettings get` printed,
/// the path is added to the list unless present, and the keybinding's name,
/// command (`bin subcmd`) and binding are set.
pub fn register_custom_binding(
    path: &str,
    schema: &str,
    name: &str,
    subcmd: &str,
    binding: &str,
    bin: &str,
    current_list: &str,
) -> (r: ShortcutPlan)
    ensures
        strings_view(r.paths@) == with_path(parse_list(current_list@), path@),
        commands_view(r.commands@) == registration_commands(
            strings_view(r.paths@),
            schema@,
            name@,
            trigger_command(bin@, subcmd@),
            binding@,
        ),
        r.message@ == "Registered GNOME global shortcut: "@ + binding@ + " -> "@
            + trigger_command(bin@, subcmd@),
{
    let with_space = concat(bin, " ");
    let trigger = concat(with_space.as_str(), subcmd);
    let paths = add_path(parse_keybinding_list(current_list), path);
    let list = format_keybinding_list(&paths);
    let mut commands: Vec<Vec<String>> = Vec::new();
    commands.push(args4(owned("set"), owned("org.gnome.settings-daemon.plugins.media-keys"), owned("custom-keybindings"), list));
    commands.push(args4(owned("set"), owned(schema), owned("name"), quote_exec(name)));
    commands.push(args4(owned("set"), owned(schema), owned("command"), quote_exec(trigger.as_str())));
    commands.push(args4(owned("set"), owned(schema), owned("binding"), quote_exec(binding)));
    let m1 = concat("Registered GNOME global shortcut: ", binding);
    let m2 = concat(m1.as_str(), " -> ");
    let message = concat(m2.as_str(), trigger.as_str());
    assert(commands_view(commands@) =~= registration_commands(
        strings_view(paths@),
        schema@,
        name@,
        trigger_command(bin@, subcmd@),
        binding@,
    ));
    ShortcutPlan { paths, commands, message }
}

/// The keybinding path of the dictation shortcut.
pub open spec fn dictation_path() -> Seq<char> {
    "/org/gnome/settings-daemon/plugins/media-keys/custom-keybindings/handyx/"@
}

/// The relocatable schema of the dictation shortcut.
pub open spec fn dictation_schema() -> Seq<char> {
    "org.gnome.settings-daemon.plugins.media-keys.custom-keybinding:/org/gnome/settings-daemon/plugins/media-keys/custom-keybindings/handyx/"@
}

/// The keybinding path of the correction shortcut.
pub open spec fn correction_path() -> Seq<char> {
    "/org/gnome/settings-daemon/plugins/media-keys/custom-keybindings/handyx-correct/"@
}

/// The relocatable schema of the correction shortcut.
pub open spec fn correction_schema() -> Seq<char> {
    "org.gnome.settings-daemon.plugins.media-keys.custom-keybinding:/org/gnome/settings-daemon/plugins/media-keys/custom-keybindings/handyx-correct/"@
}

/// The plan for `register_custom_binding` with the given arguments.
pub open spec fn is_plan_for(
    r: ShortcutPlan,
    path: Seq<char>,
    schema: Seq<char>,
    name: Seq<char>,
    subcmd: Seq<char>,
    binding: Seq<char>,
    bin: Seq<char>,
    current_list: Seq<char>,
) -> bool {
    &&& strings_view(r.paths@) == with_path(parse_list(current_list), path)
    &&& commands_view(r.commands@) == registration_commands(
        strings_view(r.paths@),
        schema,
        name,
        trigger_command(bin, subcmd),
        binding,
    )
    &&& r.message@ == "Registered GNOME global shortcut: "@ + binding + " -> "@ + trigger_command(
        bin,
        subcmd,
    )
}

/// Registers the dictation shortcut (`HandyX Toggle`, running `bin toggle`).
pub fn register_gnome_shortcut(binding: &str, bin: &str, current_list: &str) -> (r: ShortcutPlan)
    ensures
        is_plan_for(
            r,
            dictation_path(),
            dictation_schema(),
            "HandyX Toggle"@,
            "toggle"@,
            binding@,
            bin@,
            current_list@,
        ),
{
    register_custom_binding(
        "/org/gnome/settings-daemon/plugins/media-keys/custom-keybindings/handyx/",
        "org.gnome.settings-daemon.plugins.media-keys.custom-keybinding:/org/gnome/settings-daemon/plugins/media-keys/custom-keybindings/handyx/",
        "HandyX Toggle",
        "toggle",
        binding,
        bin,
        current_list,
    )
}

/// Registers the correction shortcut (`HandyX Correct`, running `bin correct`).
pub fn register_gnome_correction_shortcut(binding: &str, bin: &str, current_list: &str) -> (r:
    ShortcutPlan)
    ensures
        is_plan_for(
            r,
            correction_path(),
            correction_schema(),
            "HandyX Correct"@,
            "correct"@,
            binding@,
            bin@,
            current_list@,
        ),
{
    register_custom_binding(
        "/org/gnome/settings-daemon/plugins/media-keys/custom-keybindings/handyx-correct/",
        "org.gnome.settings-daemon.plugins.media-keys.custom-keybinding:/org/gnome/settings-daemon/plugins/media-keys/custom-keybindings/handyx-correct/",
        "HandyX Correct",
        "correct",
        binding,
        bin,
        current_list,
    )
}

/// Registers both shortcuts, dictation first: the correction shortcut is
/// registered against the list as the first registration stores it.
pub fn register_all_gnome_shortcuts(
    dictation: &str,
    correction: &str,
    bin: &str,
    current_list: &str,
) -> (r: (ShortcutPlan, ShortcutPlan))
    ensures
        is_plan_for(
            r.0,
            dictation_path(),
            dictation_schema(),
            "HandyX Toggle"@,
            "toggle"@,
            dictation@,
            bin@,
            current_list@,
        ),
        is_plan_for(
            r.1,
            correction_path(),
            correction_schema(),
            "HandyX Correct"@,
            "correct"@,
            correction@,
            bin@,
            format_list(strings_view(r.0.paths@)),
        ),
{
    let first = register_gnome_shortcut(dictation, bin, current_list);
    let stored = format_keybinding_list(&first.paths);
    let second = register_gnome_correction_shortcut(correction, bin, stored.as_str());
    (first, second)
}

/// The `gsettings set` arguments that remove the dictation shortcut from the
/// list of custom keybindings, given what `gsettings get` printed.
pub fn unregister_gnome_shortcut(current_list: &str) -> (r: Vec<String>)
    ensures
        strings_view(r@) == seq![
            "set"@,
            media_keys_schema(),
            "custom-keybindings"@,
            format_list(without_path(parse_list(current_list@), dictation_path())),
        ],
{
    let paths = parse_keybinding_list(current_list);
    let kept = remove_path(&paths, "/org/gnome/settings-daemon/plugins/media-keys/custom-keybindings/handyx/");
    let list = format_keybinding_list(&kept);
    args4(owned("set"), owned("org.gnome.settings-daemon.plugins.media-keys"), owned("custom-keybindings"), list)
}


/// A path that survives the list syntax unchanged: not empty, without commas,
/// neither starting nor ending with a quote character.
pub open spec fn plain_path(p: Seq<char>) -> bool {
    &&& p.len() > 0
    &&& !p.contains(',')
    &&& p[0] != '\'' && p[0] != '"'
    &&& p.last() != '\'' && p.last() != '"'
}

proof fn lemma_split_no_sep(s: Seq<char>, sep: char)
    requires
        !s.contains(sep),
    ensures
        split_acc(s, sep) == (Seq::<Seq<char>>::empty(), s),
    decreases s.len(),
{
    if s.len() > 0 {
        assert(!s.drop_last().contains(sep)) by {
            if s.drop_last().contains(sep) {
                let k = choose|k: int| 0 <= k < s.drop_last().len() && s.drop_last()[k] == sep;
                assert(s[k] == sep);
            }
        }
        assert(s[s.len() - 1] == s.last());
        lemma_split_no_sep(s.drop_last(), sep);
        assert(s.drop_last().push(s.last()) =~= s);
    } else {
        assert(s =~= Seq::<char>::empty());
    }
}

proof fn lemma_split_concat(x: Seq<char>, y: Seq<char>, sep: char)
    ensures
        split_acc(x + seq![sep] + y, sep) == (split(x, sep) + split_acc(y, sep).0, split_acc(
            y,
            sep,
        ).1),
    decreases y.len(),
{
    let xs = x + seq![sep];
    if y.len() == 0 {
        assert(xs + y =~= xs);
        assert(xs.drop_last() =~= x);
        assert(split(x, sep) + Seq::<Seq<char>>::empty() =~= split(x, sep));
    } else {
        lemma_split_concat(x, y.drop_last(), sep);
        assert((xs + y).drop_last() =~= xs + y.drop_last());
        assert((xs + y).last() == y.last());
        let (d, c) = split_acc(y.drop_last(), sep);
        assert(split(x, sep) + d.push(c) =~= (split(x, sep) + d).push(c));
    }
}

/// The pieces that `split` finds in the body of a formatted list.
pub open spec fn list_pieces(paths: Seq<Seq<char>>) -> Seq<Seq<char>>
    decreases paths.len(),
{
    if paths.len() == 0 {
        seq![seq![]]
    } else if paths.len() == 1 {
        seq![quoted(paths[0])]
    } else {
        list_pieces(paths.drop_last()).push(seq![' '] + quoted(paths.last()))
    }
}

proof fn lemma_split_join(paths: Seq<Seq<char>>)
    requires
        forall|i: int| 0 <= i < paths.len() ==> plain_path(#[trigger] paths[i]),
    ensures
        split(join_quoted(paths), ',') == list_pieces(paths),
    decreases paths.len(),
{
    if paths.len() == 0 {
        assert(join_quoted(paths) =~= Seq::<char>::empty());
    } else if paths.len() == 1 {
        assert(plain_path(paths[0]));
        lemma_quoted_no_comma(paths[0]);
        lemma_split_no_sep(quoted(paths[0]), ',');
    } else {
        let init = paths.drop_last();
        assert forall|i: int| 0 <= i < init.len() implies plain_path(#[trigger] init[i]) by {
            assert(init[i] == paths[i]);
        }
        lemma_split_join(init);
        assert(plain_path(paths[paths.len() - 1]));
        let last = seq![' '] + quoted(paths.last());
        lemma_quoted_no_comma(paths.last());
        assert(!last.contains(',')) by {
            if last.contains(',') {
                let k = choose|k: int| 0 <= k < last.len() && last[k] == ',';
                assert(quoted(paths.last())[k - 1] == ',');
            }
        }
        lemma_split_no_sep(last, ',');
        reveal_strlit(", ");
        assert(join_quoted(paths) =~= join_quoted(init) + seq![','] + last);
        lemma_split_concat(join_quoted(init), last, ',');
        assert(split(join_quoted(paths), ',') =~= split(join_quoted(init), ',').push(last));
    }
}

proof fn lemma_quoted_no_comma(p: Seq<char>)
    requires
        plain_path(p),
    ensures
        !quoted(p).contains(','),
{
    if quoted(p).contains(',') {
        let k = choose|k: int| 0 <= k < quoted(p).len() && quoted(p)[k] == ',';
        assert(p[k - 1] == ',');
    }
}

proof fn lemma_clean_quoted(p: Seq<char>)
    requires
        plain_path(p),
    ensures
        clean_entry(quoted(p)) == p,
        clean_entry(seq![' '] + quoted(p)) == p,
{
    let q = quoted(p);
    assert(!is_white('\''));
    assert(q[0] == '\'');
    assert(q.last() == '\'');
    assert(trim_start(q) == q);
    assert(crate::text::trim_end(q) == q);
    let sq = seq![' '] + q;
    assert(is_white(' '));
    assert(sq.drop_first() =~= q);
    assert(trim_start(sq) == trim_start(q));
    let a = q.drop_first();
    assert(a =~= p + seq!['\'']);
    assert(a[0] == p[0]);
    assert(strip_start(q, '\'') == strip_start(a, '\''));
    assert(strip_start(a, '\'') == a);
    assert(a.last() == '\'');
    assert(a.drop_last() =~= p);
    assert(strip_end(a, '\'') == strip_end(p, '\''));
    assert(strip_end(p, '\'') == p);
    assert(strip_start(p, '"') == p);
    assert(strip_end(p, '"') == p);
}

proof fn lemma_clean_pieces(paths: Seq<Seq<char>>)
    requires
        forall|i: int| 0 <= i < paths.len() ==> plain_path(#[trigger] paths[i]),
    ensures
        clean_entries(list_pieces(paths)) == paths,
    decreases paths.len(),
{
    if paths.len() == 0 {
        let e = Seq::<char>::empty();
        assert(trim(e) =~= e);
        assert(clean_entry(e) =~= e);
        assert(seq![e].drop_last() =~= Seq::<Seq<char>>::empty());
        assert(list_pieces(paths) == seq![e]);
        assert(clean_entries(seq![e]) == clean_entries(Seq::<Seq<char>>::empty()));
        assert(paths =~= Seq::<Seq<char>>::empty());
    } else if paths.len() == 1 {
        assert(plain_path(paths[0]));
        lemma_clean_quoted(paths[0]);
        assert(seq![quoted(paths[0])].drop_last() =~= Seq::<Seq<char>>::empty());
        assert(list_pieces(paths) == seq![quoted(paths[0])]);
        assert(seq![quoted(paths[0])].last() == quoted(paths[0]));
        assert(clean_entry(quoted(paths[0])).len() > 0);
        assert(clean_entries(Seq::<Seq<char>>::empty()) == Seq::<Seq<char>>::empty());
        assert(clean_entries(seq![quoted(paths[0])]) == Seq::<Seq<char>>::empty().push(paths[0]));
        assert(seq![paths[0]] =~= paths);
    } else {
        let init = paths.drop_last();
        assert forall|i: int| 0 <= i < init.len() implies plain_path(#[trigger] init[i]) by {
            assert(init[i] == paths[i]);
        }
        lemma_clean_pieces(init);
        assert(plain_path(paths[paths.len() - 1]));
        lemma_clean_quoted(paths.last());
        let pc = list_pieces(paths);
        assert(pc.drop_last() =~= list_pieces(init));
        assert(pc.last() == seq![' '] + quoted(paths.last()));
        assert(clean_entry(pc.last()) == paths.last());
        assert(clean_entries(pc) == init.push(paths.last()));
        assert(init.push(paths.last()) =~= paths);
    }
}

/// Reading back a list written in `gsettings` syntax gives the same paths,
/// for paths that the syntax carries unchanged.
pub proof fn lemma_list_roundtrip(paths: Seq<Seq<char>>)
    requires
        forall|i: int| 0 <= i < paths.len() ==> plain_path(#[trigger] paths[i]),
    ensures
        parse_list(format_list(paths)) == paths,
{
    let f = format_list(paths);
    assert(f[0] == '[');
    assert(f.last() == ']');
    assert(!is_white('['));
    assert(!is_white(']'));
    assert(trim_start(f) == f);
    assert(crate::text::trim_end(f) == f);
    assert(f.subrange(1, f.len() - 1) =~= join_quoted(paths));
    lemma_split_join(paths);
    lemma_clean_pieces(paths);
}


/// After registering, the list holds the path; registering again changes
/// nothing, and the paths already there stay in place.
pub proof fn lemma_register_idempotent(paths: Seq<Seq<char>>, path: Seq<char>)
    ensures
        with_path(paths, path).contains(path),
        with_path(with_path(paths, path), path) == with_path(paths, path),
        forall|i: int| 0 <= i < paths.len() ==> #[trigger] with_path(paths, path)[i] == paths[i],
{
    if !paths.contains(path) {
        assert(paths.push(path)[paths.len() as int] == path);
    }
}

proof fn lemma_push_contains(s: Seq<Seq<char>>, x: Seq<char>, q: Seq<char>)
    ensures
        s.push(x).contains(q) <==> (s.contains(q) || q == x),
{
    if s.contains(q) {
        let k = choose|k: int| 0 <= k < s.len() && s[k] == q;
        assert(s.push(x)[k] == q);
    }
    if q == x {
        assert(s.push(x)[s.len() as int] == q);
    }
    if s.push(x).contains(q) {
        let k = choose|k: int| 0 <= k < s.push(x).len() && s.push(x)[k] == q;
        if k < s.len() {
            assert(s[k] == q);
        }
    }
}

proof fn lemma_without_path_members(paths: Seq<Seq<char>>, path: Seq<char>, q: Seq<char>)
    ensures
        without_path(paths, path).contains(q) <==> (paths.contains(q) && q != path),
    decreases paths.len(),
{
    if paths.len() == 0 {
    } else {
        let init = paths.drop_last();
        lemma_without_path_members(init, path, q);
        assert(init.push(paths.last()) =~= paths);
        lemma_push_contains(init, paths.last(), q);
        if paths.last() != path {
            lemma_push_contains(without_path(init, path), paths.last(), q);
        }
    }
}

/// Unregistering removes the dictation shortcut's path and keeps every
/// other path.
pub proof fn lemma_unregister_removes(paths: Seq<Seq<char>>, path: Seq<char>)
    ensures
        !without_path(paths, path).contains(path),
        forall|q: Seq<char>| paths.contains(q) && q != path ==> #[trigger] without_path(
            paths,
            path,
        ).contains(q),
{
    lemma_without_path_members(paths, path, path);
    assert forall|q: Seq<char>| paths.contains(q) && q != path implies #[trigger] without_path(
        paths,
        path,
    ).contains(q) by {
        lemma_without_path_members(paths, path, q);
    }
}

/// When every path already listed survives the list syntax, registering both
/// shortcuts (the second against the list the first stored) leaves both
/// paths in the list, after the ones that were there.
pub proof fn lemma_register_all_keeps_both(current: Seq<Seq<char>>)
    requires
        forall|i: int| 0 <= i < current.len() ==> plain_path(#[trigger] current[i]),
    ensures
        ({
            let first = with_path(current, dictation_path());
            let second = with_path(parse_list(format_list(first)), correction_path());
            &&& second.contains(dictation_path())
            &&& second.contains(correction_path())
            &&& forall|q: Seq<char>| current.contains(q) ==> #[trigger] second.contains(q)
        }),
{
    let d = dictation_path();
    let c = correction_path();
    reveal_strlit("/org/gnome/settings-daemon/plugins/media-keys/custom-keybindings/handyx/");
    assert(plain_path(d)) by {
        assert(d.len() > 0);
        assert(!d.contains(',')) by {
            if d.contains(',') {
                let k = choose|k: int| 0 <= k < d.len() && d[k] == ',';
            }
        }
    }
    let first = with_path(current, d);
    assert forall|i: int| 0 <= i < first.len() implies plain_path(#[trigger] first[i]) by {
        if i < current.len() {
            lemma_register_idempotent(current, d);
            assert(first[i] == current[i]);
        } else {
            assert(first[i] == d);
        }
    }
    lemma_list_roundtrip(first);
    lemma_register_idempotent(current, d);
    lemma_register_idempotent(first, c);
    assert forall|q: Seq<char>| current.contains(q) implies #[trigger] with_path(first, c).contains(q) by {
        let k = choose|k: int| 0 <= k < current.len() && current[k] == q;
        assert(first[k] == q);
        assert(with_path(first, c)[k] == q);
    }
    let j = choose|j: int| 0 <= j < first.len() && first[j] == d;
    assert(with_path(first, c)[j] == d);
}

proof fn lemma_without_absent(paths: Seq<Seq<char>>, path: Seq<char>)
    requires
        !paths.contains(path),
    ensures
        without_path(paths, path) == paths,
    decreases paths.len(),
{
    if paths.len() > 0 {
        let init = paths.drop_last();
        assert(!init.contains(path)) by {
            if init.contains(path) {
                let k = choose|k: int| 0 <= k < init.len() && init[k] == path;
                assert(paths[k] == path);
            }
        }
        assert(paths[paths.len() - 1] == paths.last());
        lemma_without_absent(init, path);
        assert(init.push(paths.last()) =~= paths);
    }
}

/// Registering the dictation shortcut and then unregistering it gives back
/// the list as it was, when the list did not hold it and every path in it
/// survives the list syntax.
pub proof fn lemma_register_then_unregister(current: Seq<Seq<char>>)
    requires
        forall|i: int| 0 <= i < current.len() ==> plain_path(#[trigger] current[i]),
        !current.contains(dictation_path()),
    ensures
        ({
            let stored = format_list(with_path(parse_list(format_list(current)), dictation_path()));
            &&& without_path(parse_list(stored), dictation_path()) == current
            &&& format_list(without_path(parse_list(stored), dictation_path())) == format_list(current)
        }),
{
    let d = dictation_path();
    reveal_strlit("/org/gnome/settings-daemon/plugins/media-keys/custom-keybindings/handyx/");
    assert(plain_path(d)) by {
        assert(!d.contains(',')) by {
            if d.contains(',') {
                let k = choose|k: int| 0 <= k < d.len() && d[k] == ',';
            }
        }
    }
    lemma_list_roundtrip(current);
    let first = current.push(d);
    assert(with_path(current, d) == first);
    assert forall|i: int| 0 <= i < first.len() implies plain_path(#[trigger] first[i]) by {
        if i < current.len() {
            assert(first[i] == current[i]);
        }
    }
    lemma_list_roundtrip(first);
    assert(first.drop_last() =~= current);
    lemma_without_absent(current, d);
}

} // verus!
