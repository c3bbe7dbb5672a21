//! The configuration document before it is typed: file paths in it made
//! relative to the file that names them, `extends` chains, and the merge of
//! a document over the ones it extends. Paths are Unix paths, written with
//! `/`.

use vstd::prelude::*;
use crate::json::{
    entries_get, field, lemma_entries_get_absent, lemma_entries_get_first,
    lemma_entries_get_present, lemma_entries_get_push, lemma_entries_get_update, Json,
};
use crate::manifest_checks::strs_view;
use crate::json::{
    json_document, read_json_document, read_toml_document, read_yaml_document, remove_entry,
    toml_document, yaml_document, TomlReadError,
};
use crate::text::{
    blank, chars_eq, chars_of, find_chars, first_occurrence, is_blank, join_chars, join_on,
    last_index, owned, push_char, push_str, rfind_char, split_chars, split_on, str_eq, string_of,
    strings_view, sub_chars, trim_ws_chars, trim_ws_text, views_of,
};

verus! {

/// The named pieces of a path: its `/`-separated pieces without the empty
/// ones and `.`.
pub open spec fn named_parts(pieces: Seq<Seq<char>>) -> Seq<Seq<char>>
    decreases pieces.len(),
{
    if pieces.len() == 0 {
        seq![]
    } else {
        let rest = named_parts(pieces.drop_last());
        let p = pieces.last();
        if p.len() == 0 || p == seq!['.'] {
            rest
        } else {
            rest.push(p)
        }
    }
}

/// The named pieces of path `p`.
pub open spec fn path_parts(p: Seq<char>) -> Seq<Seq<char>> {
    named_parts(split_on(p, '/'))
}

/// `p` starts at the root.
pub open spec fn is_absolute(p: Seq<char>) -> bool {
    p.len() > 0 && p[0] == '/'
}

/// Named pieces with each `..` taking away the piece before it; a `..`
/// with nothing to take away is kept in a relative path and dropped in an
/// absolute one.
pub open spec fn normalize_parts(parts: Seq<Seq<char>>, absolute: bool) -> Seq<Seq<char>>
    decreases parts.len(),
{
    if parts.len() == 0 {
        seq![]
    } else {
        let prev = normalize_parts(parts.drop_last(), absolute);
        let p = parts.last();
        if p == seq!['.', '.'] {
            if prev.len() > 0 && prev.last() != seq!['.', '.'] {
                prev.drop_last()
            } else if !absolute {
                prev.push(p)
            } else {
                prev
            }
        } else {
            prev.push(p)
        }
    }
}

/// A path written from its pieces.
pub open spec fn render_path(parts: Seq<Seq<char>>, absolute: bool) -> Seq<char> {
    if absolute {
        seq!['/'] + join_on(parts, '/')
    } else {
        join_on(parts, '/')
    }
}

/// `p` with `.` pieces, repeated `/`s and `..` after a name taken out.
pub open spec fn normalized_path(p: Seq<char>) -> Seq<char> {
    render_path(normalize_parts(path_parts(p), is_absolute(p)), is_absolute(p))
}

fn named_parts_of(pieces: &Vec<Vec<char>>) -> (r: Vec<Vec<char>>)
    ensures
        views_of(r@) == named_parts(views_of(pieces@)),
{
    let ghost all = views_of(pieces@);
    let dot: Vec<char> = vec!['.'];
    let mut r: Vec<Vec<char>> = Vec::new();
    let mut i: usize = 0;
    while i < pieces.len()
        invariant
            i <= pieces.len(),
            all == views_of(pieces@),
            dot@ == seq!['.'],
            views_of(r@) == named_parts(all.take(i as int)),
        decreases pieces.len() - i,
    {
        let p = &pieces[i];
        assert(all.take(i + 1).drop_last() =~= all.take(i as int));
        assert(all.take(i + 1).last() == p@);
        if p.len() > 0 && !chars_eq(p, &dot) {
            let ghost before = r@;
            r.push(crate::text::sub_chars(p, 0, p.len()));
            assert(p@.subrange(0, p@.len() as int) =~= p@);
            assert(views_of(r@) =~= views_of(before).push(p@));
        }
        i += 1;
    }
    assert(all.take(pieces.len() as int) =~= all);
    r
}

fn normalize_parts_of(parts: &Vec<Vec<char>>, absolute: bool) -> (r: Vec<Vec<char>>)
    ensures
        views_of(r@) == normalize_parts(views_of(parts@), absolute),
{
    let ghost all = views_of(parts@);
    let up: Vec<char> = vec!['.', '.'];
    let mut r: Vec<Vec<char>> = Vec::new();
    let mut i: usize = 0;
    while i < parts.len()
        invariant
            i <= parts.len(),
            all == views_of(parts@),
            up@ == seq!['.', '.'],
            views_of(r@) == normalize_parts(all.take(i as int), absolute),
        decreases parts.len() - i,
    {
        let p = &parts[i];
        assert(all.take(i + 1).drop_last() =~= all.take(i as int));
        assert(all.take(i + 1).last() == p@);
        let ghost before = r@;
        if chars_eq(p, &up) {
            if r.len() > 0 && !chars_eq(&r[r.len() - 1], &up) {
                r.pop();
                assert(views_of(r@) =~= views_of(before).drop_last());
            } else if !absolute {
                r.push(vec!['.', '.']);
                assert(views_of(r@) =~= views_of(before).push(seq!['.', '.']));
            }
        } else {
            r.push(crate::text::sub_chars(p, 0, p.len()));
            assert(p@.subrange(0, p@.len() as int) =~= p@);
            assert(views_of(r@) =~= views_of(before).push(p@));
        }
        i += 1;
    }
    assert(all.take(parts.len() as int) =~= all);
    r
}

fn render_path_of(parts: &Vec<Vec<char>>, absolute: bool) -> (r: String)
    ensures
        r@ == render_path(views_of(parts@), absolute),
{
    let body = join_chars(parts, 0, '/');
    assert(views_of(parts@).subrange(0, parts.len() as int) =~= views_of(parts@));
    let mut r = String::new();
    if absolute {
        push_char(&mut r, '/');
    }
    let tail = string_of(&body);
    push_str(&mut r, tail.as_str());
    r
}

/// `path` with `.` pieces, repeated `/`s and `..` after a name taken out
/// (a `..` at the root is dropped, one at the start of a relative path
/// kept).
pub fn normalize_path(path: &str) -> (r: String)
    ensures
        r@ == normalized_path(path@),
{
    let v = chars_of(path);
    let absolute = v.len() > 0 && v[0] == '/';
    let pieces = split_chars(&v, '/');
    let named = named_parts_of(&pieces);
    let normal = normalize_parts_of(&named, absolute);
    render_path_of(&normal, absolute)
}

/// The pieces of the directory a file path is in, and whether it starts at
/// the root: the file's path without its last piece (`Path::parent`, with
/// the current directory when there is none).
pub open spec fn parent_parts(p: Seq<char>) -> (Seq<Seq<char>>, bool) {
    let parts = path_parts(p);
    if parts.len() == 0 {
        (seq![], false)
    } else {
        (parts.drop_last(), is_absolute(p))
    }
}

/// What a relative path `raw` in the configuration file `config` stands
/// for: the path from the file's directory, normalized. Nothing for a blank
/// or absolute path, which stays as it is.
pub open spec fn resolved_config_path(config: Seq<char>, raw: Seq<char>) -> Option<Seq<char>> {
    let t = trim_ws_text(raw);
    if t.len() == 0 || is_absolute(t) {
        None
    } else {
        let (base, absolute) = parent_parts(config);
        Some(render_path(normalize_parts(base + path_parts(t), absolute), absolute))
    }
}

/// The path a relative path in a configuration file stands for, when it
/// is to be rewritten.
pub fn resolve_config_path(config: &str, raw: &str) -> (r: Option<String>)
    ensures
        match (r, resolved_config_path(config@, raw@)) {
            (Some(a), Some(b)) => a@ == b,
            (None, None) => true,
            _ => false,
        },
{
    let t = trim_ws_chars(&chars_of(raw));
    if t.len() == 0 || t[0] == '/' {
        return None;
    }
    let cv = chars_of(config);
    let config_absolute = cv.len() > 0 && cv[0] == '/';
    let mut base = named_parts_of(&split_chars(&cv, '/'));
    let absolute = base.len() > 0 && config_absolute;
    if base.len() > 0 {
        let ghost before = base@;
        base.pop();
        assert(views_of(base@) =~= views_of(before).drop_last());
    }
    let mut rest = named_parts_of(&split_chars(&t, '/'));
    let ghost b0 = views_of(base@);
    let ghost r0 = views_of(rest@);
    base.append(&mut rest);
    assert(views_of(base@) =~= b0 + r0);
    let normal = normalize_parts_of(&base, absolute);
    Some(render_path_of(&normal, absolute))
}

/// The value at a path of field names.
pub open spec fn json_at(v: Json, path: Seq<Seq<char>>) -> Option<Json>
    decreases path.len(),
{
    if path.len() == 0 {
        Some(v)
    } else {
        match field(v, path[0]) {
            Some(c) => json_at(c, path.drop_first()),
            None => None,
        }
    }
}

/// `r` is `v` with the relative file path at `path`, if there is one,
/// rewritten as `resolved_config_path` says; nothing else differs.
pub open spec fn rewritten_at(config: Seq<char>, v: Json, r: Json, path: Seq<Seq<char>>) -> bool
    decreases path.len(),
{
    if path.len() == 0 {
        match v {
            Json::Str(raw) => match resolved_config_path(config, raw@) {
                Some(p) => r matches Json::Str(s) && s@ == p,
                None => r == v,
            },
            _ => r == v,
        }
    } else {
        match v {
            Json::Object(es) => match entries_get(es@, path[0]) {
                Some(c) => {
                    &&& r matches Json::Object(rs)
                    &&& forall|k: Seq<char>|
                        k != path[0] ==> #[trigger] entries_get(rs@, k) == entries_get(es@, k)
                    &&& entries_get(rs@, path[0]) matches Some(rc)
                    &&& rewritten_at(config, c, rc, path.drop_first())
                },
                None => r == v,
            },
            _ => r == v,
        }
    }
}

fn first_index_of(es: &Vec<(String, Json)>, key: &str) -> (r: Option<usize>)
    ensures
        match r {
            Some(j) => j < es@.len() && es@[j as int].0@ == key@ && forall|l: int|
                0 <= l < j ==> es@[l].0@ != key@,
            None => forall|l: int| 0 <= l < es@.len() ==> es@[l].0@ != key@,
        },
{
    let mut j: usize = 0;
    while j < es.len()
        invariant
            j <= es.len(),
            forall|l: int| 0 <= l < j ==> es@[l].0@ != key@,
        decreases es.len() - j,
    {
        if str_eq(es[j].0.as_str(), key) {
            return Some(j);
        }
        j += 1;
    }
    None
}

fn rewrite_at(config: &str, v: Json, path: &[&str], i: usize) -> (r: Json)
    requires
        i <= path@.len(),
    ensures
        rewritten_at(config@, v, r, strs_view(path@).skip(i as int)),
    decreases path@.len() - i,
{
    let ghost rest = strs_view(path@).skip(i as int);
    if i == path.len() {
        assert(rest.len() == 0);
        return match v {
            Json::Str(raw) => match resolve_config_path(config, raw.as_str()) {
                Some(p) => Json::Str(p),
                None => Json::Str(raw),
            },
            other => other,
        };
    }
    assert(rest[0] == path@[i as int]@);
    assert(rest.drop_first() =~= strs_view(path@).skip(i + 1));
    match v {
        Json::Object(mut es) => {
            let ghost es0 = es@;
            match first_index_of(&es, path[i]) {
                Some(j) => {
                    proof {
                        lemma_entries_get_first(es0, j as int, path@[i as int]@);
                    }
                    let (k, c) = es.remove(j);
                    let rc = rewrite_at(config, c, path, i + 1);
                    es.insert(j, (k, rc));
                    proof {
                        assert(es@ =~= es0.update(j as int, (k, rc)));
                        assert forall|q: Seq<char>| q != rest[0] implies #[trigger] entries_get(es@, q)
                            == entries_get(es0, q) by {
                            lemma_entries_get_update(es0, j as int, (k, rc), q);
                        }
                        lemma_entries_get_update(es0, j as int, (k, rc), rest[0]);
                    }
                    Json::Object(es)
                },
                None => {
                    proof {
                        lemma_entries_get_absent(es0, path@[i as int]@);
                    }
                    Json::Object(es)
                },
            }
        },
        other => other,
    }
}

/// The fields of the configuration that hold file paths.
pub open spec fn config_path_fields() -> Seq<Seq<Seq<char>>> {
    seq![
        seq!["workspace_dir"@],
        seq!["database"@, "data_dir"@],
        seq!["control_plane"@, "database"@, "data_dir"@],
        seq!["control_plane"@, "documents"@, "data_dir"@],
        seq!["control_plane"@, "object_store"@, "path"@],
        seq!["storage"@, "control"@, "data_dir"@],
        seq!["storage"@, "data"@, "data_dir"@],
        seq!["storage"@, "documents"@, "data_dir"@],
        seq!["storage"@, "objects"@, "path"@],
    ]
}

/// `r` is `v` with the paths at each of `paths` rewritten, in order.
pub open spec fn rewritten_along(config: Seq<char>, v: Json, r: Json, paths: Seq<Seq<Seq<char>>>) -> bool
    decreases paths.len(),
{
    if paths.len() == 0 {
        r == v
    } else {
        exists|m: Json|
            rewritten_along(config, v, m, paths.drop_last()) && #[trigger] rewritten_at(
                config,
                m,
                r,
                paths.last(),
            )
    }
}

/// The configuration document of file `config` with each relative file
/// path in it made a path from the file's directory.
pub fn resolve_config_relative_paths(config: &str, doc: Json) -> (r: Json)
    ensures
        rewritten_along(config@, doc, r, config_path_fields()),
{
    let fields: [&[&str]; 9] = [
        &["workspace_dir"],
        &["database", "data_dir"],
        &["control_plane", "database", "data_dir"],
        &["control_plane", "documents", "data_dir"],
        &["control_plane", "object_store", "path"],
        &["storage", "control", "data_dir"],
        &["storage", "data", "data_dir"],
        &["storage", "documents", "data_dir"],
        &["storage", "objects", "path"],
    ];
    let ghost spec_fields = fields@.map_values(|p: &[&str]| strs_view(p@));
    assert(spec_fields =~= config_path_fields()) by {
        assert(strs_view(fields@[0]@) =~= config_path_fields()[0]);
        assert(strs_view(fields@[1]@) =~= config_path_fields()[1]);
        assert(strs_view(fields@[2]@) =~= config_path_fields()[2]);
        assert(strs_view(fields@[3]@) =~= config_path_fields()[3]);
        assert(strs_view(fields@[4]@) =~= config_path_fields()[4]);
        assert(strs_view(fields@[5]@) =~= config_path_fields()[5]);
        assert(strs_view(fields@[6]@) =~= config_path_fields()[6]);
        assert(strs_view(fields@[7]@) =~= config_path_fields()[7]);
        assert(strs_view(fields@[8]@) =~= config_path_fields()[8]);
    }
    let mut cur = doc;
    let mut i: usize = 0;
    assert(spec_fields.take(0).len() == 0);
    while i < 9
        invariant
            i <= 9,
            fields@.len() == 9,
            spec_fields == fields@.map_values(|p: &[&str]| strs_view(p@)),
            spec_fields == config_path_fields(),
            rewritten_along(config@, doc, cur, spec_fields.take(i as int)),
        decreases 9 - i,
    {
        let next = rewrite_at(config, cur, fields[i], 0);
        proof {
            let t = spec_fields.take(i + 1);
            assert(t.drop_last() =~= spec_fields.take(i as int));
            assert(strs_view(fields@[i as int]@).skip(0) =~= t.last());
            assert(rewritten_at(config@, cur, next, t.last()));
        }
        cur = next;
        i += 1;
    }
    assert(spec_fields.take(9) =~= spec_fields);
    cur
}

/// Every object in `v`, however deep, names each field once, as a JSON
/// document read by `serde_json` does.
pub open spec fn well_formed(v: Json) -> bool
    decreases v,
{
    match v {
        Json::Object(es) => {
            &&& forall|i: int, j: int|
                0 <= i < j < es@.len() ==> #[trigger] es@[i].0@ != #[trigger] es@[j].0@
            &&& forall|i: int| #![trigger es@[i]] 0 <= i < es@.len() ==> well_formed(es@[i].1)
        },
        Json::Array(items) => forall|i: int| #![trigger items@[i]] 0 <= i < items@.len() ==> well_formed(items@[i]),
        _ => true,
    }
}

/// `r` is `overlay` merged over `base`: two objects are merged field by
/// field, a field of the overlay that the base lacks is added, and
/// anything else is replaced by the overlay.
pub open spec fn merged(base: Json, overlay: Json, r: Json) -> bool
    decreases overlay,
{
    match (base, overlay) {
        (Json::Object(bs), Json::Object(os)) => {
            &&& r is Object
            &&& forall|k: Seq<char>|
                entries_get(os@, k) is None ==> #[trigger] field(r, k) == entries_get(bs@, k)
            &&& forall|i: int|
                #![trigger os@[i]]
                0 <= i < os@.len() ==> match entries_get(bs@, os@[i].0@) {
                    None => field(r, os@[i].0@) == Some(os@[i].1),
                    Some(x) => field(r, os@[i].0@) matches Some(y) && merged(x, os@[i].1, y),
                }
        },
        _ => r == overlay,
    }
}

/// Merges `overlay` over `base`: objects field by field, anything else
/// replaced.
pub fn merge_config_values(base: Json, overlay: Json) -> (r: Json)
    requires
        well_formed(overlay),
    ensures
        merged(base, overlay, r),
    decreases overlay,
{
    match base {
        Json::Object(mut bs) => {
            match overlay {
                Json::Object(os) => {
                    let ghost bs0 = bs@;
                    let ghost os0 = os@;
                    proof {
                        assert(overlay == Json::Object(os));
                        assert(well_formed(overlay));
                        reveal_with_fuel(well_formed, 2);
                        assert forall|l: int| 0 <= l < os0.len() implies well_formed(#[trigger] os0[l].1) by {
                            assert(well_formed(os@[l].1));
                        }
                        assert forall|l: int| 0 <= l < os0.len() implies decreases_to!(overlay => os0[l].1) by {
                            assert(decreases_to!(overlay => os));
                            assert(decreases_to!(os => os@));
                            assert(decreases_to!(os@ => os@[l]));
                            assert(decreases_to!(os@[l] => os@[l].1));
                        }
                    }
                    let total: usize = os.len();
                    let mut rest = os;
                    let mut i: usize = 0;
                    while rest.len() > 0
                        invariant
                            i <= os0.len(),
                            os0.len() == total,
                            rest@ == os0.skip(i as int),
                            forall|l: int, m: int|
                                0 <= l < m < os0.len() ==> #[trigger] os0[l].0@ != #[trigger] os0[m].0@,
                            forall|l: int|
                                0 <= l < os0.len() ==> decreases_to!(overlay => os0[l].1) && well_formed(
                                    #[trigger] os0[l].1,
                                ),
                            forall|k: Seq<char>|
                                (forall|l: int| 0 <= l < i ==> os0[l].0@ != k) ==> #[trigger] entries_get(
                                    bs@,
                                    k,
                                ) == entries_get(bs0, k),
                            forall|l: int|
                                #![trigger os0[l]]
                                0 <= l < i ==> match entries_get(bs0, os0[l].0@) {
                                    None => entries_get(bs@, os0[l].0@) == Some(os0[l].1),
                                    Some(x) => entries_get(bs@, os0[l].0@) matches Some(y)
                                        && merged(x, os0[l].1, y),
                                },
                        decreases rest.len(),
                    {
                        let ghost bs_before = bs@;
                        let (k, v) = rest.remove(0);
                        assert(os0.skip(i as int)[0] == os0[i as int]);
                        assert(rest@ =~= os0.skip(i + 1));
                        let ghost key = k@;
                        assert(key == os0[i as int].0@);
                        assert(forall|l: int| 0 <= l < i ==> os0[l].0@ != key);
                        assert(entries_get(bs_before, key) == entries_get(bs0, key));
                        match first_index_of(&bs, k.as_str()) {
                            Some(j) => {
                                proof {
                                    lemma_entries_get_first(bs_before, j as int, key);
                                }
                                let (bk, bv) = bs.remove(j);
                                proof {
                                    assert(well_formed(os0[i as int].1));
                                    assert(decreases_to!(overlay => v));
                                }
                                let m = merge_config_values(bv, v);
                                let ghost e = (bk, m);
                                bs.insert(j, (bk, m));
                                proof {
                                    assert(bs@ =~= bs_before.update(j as int, e));
                                    assert forall|q: Seq<char>| #![trigger entries_get(bs@, q)]
                                        q != key implies entries_get(bs@, q) == entries_get(
                                        bs_before,
                                        q,
                                    ) by {
                                        lemma_entries_get_update(bs_before, j as int, e, q);
                                    }
                                    lemma_entries_get_update(bs_before, j as int, e, key);
                                }
                            },
                            None => {
                                proof {
                                    lemma_entries_get_absent(bs_before, key);
                                }
                                let ghost e = (k, v);
                                bs.push((k, v));
                                proof {
                                    assert forall|q: Seq<char>| #![trigger entries_get(bs@, q)]
                                        entries_get(bs@, q) == if q == key {
                                            Some(e.1)
                                        } else {
                                            entries_get(bs_before, q)
                                        } by {
                                        lemma_entries_get_push(bs_before, e, q);
                                    }
                                }
                            },
                        }
                        proof {
                            assert forall|l: int| 0 <= l < i implies os0[l].0@ != key by {
                                assert(os0[l].0@ != os0[i as int].0@);
                            }
                        }
                        i += 1;
                    }
                    proof {
                        assert(i == os0.len());
                        assert forall|k: Seq<char>| entries_get(os0, k) is None implies (forall|l: int|
                            0 <= l < i ==> os0[l].0@ != k) by {
                            assert forall|l: int| 0 <= l < i implies os0[l].0@ != k by {
                                if os0[l].0@ == k {
                                    lemma_entries_get_present(os0, l);
                                }
                            }
                        }
                    }
                    Json::Object(bs)
                },
                other => other,
            }
        },
        _ => overlay,
    }
}

/// Whether every object in `v` names each field once.
pub fn json_well_formed(v: &Json) -> (r: bool)
    ensures
        r == well_formed(*v),
    decreases *v,
{
    match v {
        Json::Object(es) => {
            let mut i: usize = 0;
            while i < es.len()
                invariant
                    i <= es.len(),
                    *v == Json::Object(*es),
                    forall|a: int, b: int|
                        0 <= a < b < es@.len() && a < i ==> #[trigger] es@[a].0@ != #[trigger] es@[b].0@,
                    forall|a: int| #![trigger es@[a]] 0 <= a < i ==> well_formed(es@[a].1),
                decreases es.len() - i,
            {
                let mut j: usize = i + 1;
                while j < es.len()
                    invariant
                        i < j <= es.len(),
                        *v == Json::Object(*es),
                        forall|b: int| i < b < j ==> es@[i as int].0@ != #[trigger] es@[b].0@,
                    decreases es.len() - j,
                {
                    if str_eq(es[i].0.as_str(), es[j].0.as_str()) {
                        assert(es@[i as int].0@ == es@[j as int].0@);
                        assert((*v)->Object_0 == *es);
                        assert(!well_formed(*v));
                        return false;
                    }
                    j += 1;
                }
                proof {
                    assert(decreases_to!(*v => es@[i as int].1)) by {
                        assert(decreases_to!(*v => (*v)->Object_0));
                        assert((*v)->Object_0 == *es);
                        assert(decreases_to!(*es => es@));
                        assert(decreases_to!(es@ => es@[i as int]));
                    }
                }
                if !json_well_formed(&es[i].1) {
                    assert(!well_formed(es@[i as int].1));
                    assert((*v)->Object_0 == *es);
                    assert(!well_formed(*v));
                    return false;
                }
                i += 1;
            }
            true
        },
        Json::Array(items) => {
            let mut i: usize = 0;
            while i < items.len()
                invariant
                    i <= items.len(),
                    *v == Json::Array(*items),
                    forall|a: int| #![trigger items@[a]] 0 <= a < i ==> well_formed(items@[a]),
                decreases items.len() - i,
            {
                proof {
                    assert(decreases_to!(*v => items@[i as int])) by {
                        assert(decreases_to!(*v => (*v)->Array_0));
                        assert((*v)->Array_0 == *items);
                        assert(decreases_to!(*items => items@));
                    }
                }
                if !json_well_formed(&items[i]) {
                    assert(!well_formed(items@[i as int]));
                    assert((*v)->Array_0 == *items);
                    assert(!well_formed(*v));
                    return false;
                }
                i += 1;
            }
            true
        },
        _ => true,
    }
}

/// The deepest chain of `extends` a configuration may have.
pub const MAX_CONFIG_EXTENDS_DEPTH: usize = 32;

/// What is wrong with a configuration document or its `extends` chain.
#[derive(Clone, Debug)]
pub enum ConfigDocError {
    /// The file does not hold an object.
    NotAnObject { path: String },
    /// `extends` is neither a path nor a list of paths.
    ExtendsNotPaths { path: String },
    /// `extends` is a list with something other than a path in it.
    ExtendsListNotPaths { path: String },
    /// An extension that names a URL.
    RemoteExtension { extend: String },
    /// A file that extends itself, through the chain given.
    ExtendsCycle { chain: Vec<String> },
    /// A chain of extensions deeper than the limit, written out.
    ExtendsTooDeep { chain: String },
    /// A file whose extension names no format.
    UnsupportedFormat { extension: String },
    /// A file whose text does not read in its format; the parser's words.
    Parse { format: ConfigFormat, path: String, detail: String },
    /// A TOML file whose value does not convert to JSON; the converter's words.
    TomlToJson { detail: String },
    /// Inline YAML configuration that does not read; the parser's words.
    InlineYaml { detail: String },
}

/// `parts` joined with `sep` between each two.
pub open spec fn join_with(parts: Seq<Seq<char>>, sep: Seq<char>) -> Seq<char>
    decreases parts.len(),
{
    if parts.len() == 0 {
        seq![]
    } else if parts.len() == 1 {
        parts[0]
    } else {
        join_with(parts.drop_last(), sep) + sep + parts.last()
    }
}

/// `parts` joined with `sep`.
pub fn join_strings(parts: &Vec<String>, sep: &str) -> (r: String)
    ensures
        r@ == join_with(strings_view(parts@), sep@),
{
    let ghost all = strings_view(parts@);
    let mut r = String::new();
    let mut i: usize = 0;
    while i < parts.len()
        invariant
            i <= parts.len(),
            all == strings_view(parts@),
            r@ == join_with(all.take(i as int), sep@),
        decreases parts.len() - i,
    {
        let ghost before = r@;
        if i > 0 {
            push_str(&mut r, sep);
        }
        push_str(&mut r, parts[i].as_str());
        proof {
            let t = all.take(i + 1);
            assert(t.drop_last() =~= all.take(i as int));
            assert(t.last() == parts@[i as int]@);
            if i == 0 {
                assert(r@ =~= join_with(t, sep@));
            } else {
                assert(r@ =~= before + sep@ + parts@[i as int]@);
            }
        }
        i += 1;
    }
    assert(all.take(parts.len() as int) =~= all);
    r
}

/// The description of a configuration document error.
pub open spec fn config_doc_error_text(e: ConfigDocError) -> Seq<char> {
    match e {
        ConfigDocError::NotAnObject { path } => "Config file '"@ + path@ + "' must contain a top-level object"@,
        ConfigDocError::ExtendsNotPaths { path } => "Config file '"@ + path@
            + "' must define 'extends' as a path string or list of path strings"@,
        ConfigDocError::ExtendsListNotPaths { path } => "Config file '"@ + path@
            + "' has an 'extends' list that must contain only non-empty path strings"@,
        ConfigDocError::RemoteExtension { extend } => "Config extension '"@ + extend@
            + "' is not a local file path; remote URLs are not supported"@,
        ConfigDocError::ExtendsCycle { chain } => "configuration extends cycle detected: "@ + join_with(
            strings_view(chain@),
            " -> "@,
        ),
        ConfigDocError::ExtendsTooDeep { chain } => "configuration extends nesting exceeds maximum depth of 32 (chain: "@
            + chain@ + ")"@,
        ConfigDocError::UnsupportedFormat { extension } => "Unsupported config format: "@ + extension@,
        ConfigDocError::Parse { format, path, detail } => "Failed to parse "@ + format_name(format)
            + " config '"@ + path@ + "'"@,
        ConfigDocError::TomlToJson { detail } => "Failed to convert TOML config to JSON"@,
        ConfigDocError::InlineYaml { detail } => "Failed to parse TALON_CONFIG_INLINE_YAML"@,
    }
}

/// The name a format is called by in errors.
pub open spec fn format_name(f: ConfigFormat) -> Seq<char> {
    match f {
        ConfigFormat::Toml => "TOML"@,
        ConfigFormat::Yaml => "YAML"@,
        ConfigFormat::Json => "JSON"@,
    }
}

impl ConfigDocError {
    /// A description of the error.
    pub fn message(&self) -> (r: String)
        ensures
            r@ == config_doc_error_text(*self),
    {
        let mut m = String::new();
        match self {
            ConfigDocError::NotAnObject { path } => {
                push_str(&mut m, "Config file '");
                push_str(&mut m, path.as_str());
                push_str(&mut m, "' must contain a top-level object");
            },
            ConfigDocError::ExtendsNotPaths { path } => {
                push_str(&mut m, "Config file '");
                push_str(&mut m, path.as_str());
                push_str(&mut m, "' must define 'extends' as a path string or list of path strings");
            },
            ConfigDocError::ExtendsListNotPaths { path } => {
                push_str(&mut m, "Config file '");
                push_str(&mut m, path.as_str());
                push_str(
                    &mut m,
                    "' has an 'extends' list that must contain only non-empty path strings",
                );
            },
            ConfigDocError::RemoteExtension { extend } => {
                push_str(&mut m, "Config extension '");
                push_str(&mut m, extend.as_str());
                push_str(&mut m, "' is not a local file path; remote URLs are not supported");
            },
            ConfigDocError::ExtendsCycle { chain } => {
                push_str(&mut m, "configuration extends cycle detected: ");
                let joined = join_strings(chain, " -> ");
                push_str(&mut m, joined.as_str());
            },
            ConfigDocError::ExtendsTooDeep { chain } => {
                push_str(&mut m, "configuration extends nesting exceeds maximum depth of 32 (chain: ");
                push_str(&mut m, chain.as_str());
                push_str(&mut m, ")");
            },
            ConfigDocError::UnsupportedFormat { extension } => {
                push_str(&mut m, "Unsupported config format: ");
                push_str(&mut m, extension.as_str());
            },
            ConfigDocError::Parse { format, path, .. } => {
                push_str(&mut m, "Failed to parse ");
                push_str(
                    &mut m,
                    match format {
                        ConfigFormat::Toml => "TOML",
                        ConfigFormat::Yaml => "YAML",
                        ConfigFormat::Json => "JSON",
                    },
                );
                push_str(&mut m, " config '");
                push_str(&mut m, path.as_str());
                push_str(&mut m, "'");
            },
            ConfigDocError::TomlToJson { .. } => {
                push_str(&mut m, "Failed to convert TOML config to JSON");
            },
            ConfigDocError::InlineYaml { .. } => {
                push_str(&mut m, "Failed to parse TALON_CONFIG_INLINE_YAML");
            },
        }
        m
    }
}

/// The chain of files being loaded, then `next`, joined with ` -> `.
pub fn format_config_chain(stack: &Vec<String>, next: &str) -> (r: String)
    ensures
        r@ == join_with(strings_view(stack@).push(next@), " -> "@),
{
    let mut all: Vec<String> = Vec::new();
    let mut i: usize = 0;
    while i < stack.len()
        invariant
            i <= stack.len(),
            strings_view(all@) =~= strings_view(stack@).take(i as int),
        decreases stack.len() - i,
    {
        let ghost before = all@;
        all.push(owned(stack[i].as_str()));
        assert(strings_view(all@) =~= strings_view(before).push(stack@[i as int]@));
        assert(strings_view(stack@).take(i + 1) =~= strings_view(stack@).take(i as int).push(
            stack@[i as int]@,
        ));
        i += 1;
    }
    let ghost before = all@;
    all.push(owned(next));
    assert(strings_view(all@) =~= strings_view(before).push(next@));
    assert(strings_view(stack@).take(stack.len() as int) =~= strings_view(stack@));
    assert(strings_view(all@) =~= strings_view(stack@).push(next@));
    join_strings(&all, " -> ")
}

/// Refuses a file reached through more extensions than the limit.
pub fn check_extends_depth(stack: &Vec<String>, path: &str, depth: usize) -> (r: Result<(), ConfigDocError>)
    ensures
        depth <= MAX_CONFIG_EXTENDS_DEPTH <==> r is Ok,
        r matches Err(e) ==> e matches ConfigDocError::ExtendsTooDeep { chain } && chain@ == join_with(
            strings_view(stack@).push(path@),
            " -> "@,
        ),
{
    if depth > MAX_CONFIG_EXTENDS_DEPTH {
        Err(ConfigDocError::ExtendsTooDeep { chain: format_config_chain(stack, path) })
    } else {
        Ok(())
    }
}

/// Refuses a file that is already being loaded: the error holds the files
/// from its first load on, and the file again.
pub fn check_extends_cycle(stack: &Vec<String>, canonical: &str) -> (r: Result<(), ConfigDocError>)
    ensures
        match r {
            Ok(()) => forall|i: int| 0 <= i < stack@.len() ==> stack@[i]@ != canonical@,
            Err(e) => exists|p: int|
                0 <= p < stack@.len() && stack@[p]@ == canonical@ && (forall|j: int|
                    0 <= j < p ==> stack@[j]@ != canonical@) && (e matches ConfigDocError::ExtendsCycle {
                    chain,
                } && strings_view(chain@) == strings_view(stack@).skip(p).push(canonical@)),
        },
{
    let mut p: usize = 0;
    while p < stack.len()
        invariant
            p <= stack.len(),
            forall|j: int| 0 <= j < p ==> stack@[j]@ != canonical@,
        decreases stack.len() - p,
    {
        if str_eq(stack[p].as_str(), canonical) {
            let mut chain: Vec<String> = Vec::new();
            let mut i: usize = p;
            while i < stack.len()
                invariant
                    p <= i <= stack.len(),
                    strings_view(chain@) =~= strings_view(stack@).subrange(p as int, i as int),
                decreases stack.len() - i,
            {
                let ghost before = chain@;
                chain.push(owned(stack[i].as_str()));
                assert(strings_view(chain@) =~= strings_view(before).push(stack@[i as int]@));
                i += 1;
            }
            let ghost before = chain@;
            chain.push(owned(canonical));
            assert(strings_view(chain@) =~= strings_view(before).push(canonical@));
            assert(strings_view(chain@) =~= strings_view(stack@).skip(p as int).push(canonical@));
            return Err(ConfigDocError::ExtendsCycle { chain });
        }
        p += 1;
    }
    Ok(())
}

/// A field value that names a file: a string that is not blank.
pub open spec fn names_file(j: Json) -> bool {
    j matches Json::Str(s) && !is_blank(s@)
}

/// The trimmed text of a string value.
pub open spec fn trimmed_text(j: Json) -> Seq<char> {
    match j {
        Json::Str(s) => trim_ws_text(s@),
        _ => seq![],
    }
}

/// The files an `extends` field names, or nothing when it is malformed: no
/// field or `null` names none, a path names itself, and a list must hold
/// only paths.
pub open spec fn extends_paths(e: Option<Json>) -> Option<Seq<Seq<char>>> {
    match e {
        None => Some(seq![]),
        Some(Json::Null) => Some(seq![]),
        Some(Json::Str(s)) => if is_blank(s@) {
            None
        } else {
            Some(seq![trim_ws_text(s@)])
        },
        Some(Json::Array(items)) => if forall|i: int| 0 <= i < items@.len() ==> #[trigger] names_file(items@[i]) {
            Some(items@.map_values(|j: Json| trimmed_text(j)))
        } else {
            None
        },
        _ => None,
    }
}

fn extends_list(items: &Vec<Json>) -> (r: Option<Vec<String>>)
    ensures
        match r {
            Some(l) => (forall|i: int| 0 <= i < items@.len() ==> #[trigger] names_file(items@[i]))
                && strings_view(l@) == items@.map_values(|j: Json| trimmed_text(j)),
            None => !(forall|i: int| 0 <= i < items@.len() ==> #[trigger] names_file(items@[i])),
        },
{
    let mut l: Vec<String> = Vec::new();
    let mut i: usize = 0;
    while i < items.len()
        invariant
            i <= items.len(),
            forall|j: int| 0 <= j < i ==> #[trigger] names_file(items@[j]),
            strings_view(l@) =~= items@.take(i as int).map_values(|j: Json| trimmed_text(j)),
        decreases items.len() - i,
    {
        match &items[i] {
            Json::Str(s) => {
                if blank(s.as_str()) {
                    assert(!names_file(items@[i as int]));
                    return None;
                }
                let ghost before = l@;
                l.push(string_of(&trim_ws_chars(&chars_of(s.as_str()))));
                assert(strings_view(l@) =~= strings_view(before).push(trim_ws_text(s@)));
                assert(items@.take(i + 1) =~= items@.take(i as int).push(items@[i as int]));
            },
            _ => {
                assert(!names_file(items@[i as int]));
                return None;
            },
        }
        i += 1;
    }
    assert(items@.take(items.len() as int) =~= items@);
    Some(l)
}

/// Takes the `extends` field out of a configuration document and gives the
/// files it names.
pub fn take_extends(doc: Json, path: &str) -> (r: Result<(Json, Vec<String>), ConfigDocError>)
    ensures
        r is Ok <==> doc is Object && extends_paths(field(doc, "extends"@)) is Some,
        match r {
            Ok((rest, list)) => {
                &&& rest is Object
                &&& field(rest, "extends"@) is None
                &&& forall|k: Seq<char>| k != "extends"@ ==> #[trigger] field(rest, k) == field(doc, k)
                &&& extends_paths(field(doc, "extends"@)) == Some(strings_view(list@))
            },
            Err(e) => if doc is Object {
                if field(doc, "extends"@) matches Some(Json::Array(_)) {
                    e matches ConfigDocError::ExtendsListNotPaths { path: p } && p@ == path@
                } else {
                    e matches ConfigDocError::ExtendsNotPaths { path: p } && p@ == path@
                }
            } else {
                e matches ConfigDocError::NotAnObject { path: p } && p@ == path@
            },
        },
{
    match doc {
        Json::Object(mut es) => {
            let ghost es0 = es@;
            let extends = remove_entry(&mut es, "extends");
            let list: Vec<String> = match extends {
                None => Vec::new(),
                Some(Json::Null) => Vec::new(),
                Some(Json::Str(s)) => {
                    if blank(s.as_str()) {
                        return Err(ConfigDocError::ExtendsNotPaths { path: owned(path) });
                    }
                    let t = string_of(&trim_ws_chars(&chars_of(s.as_str())));
                    let mut l: Vec<String> = Vec::new();
                    l.push(t);
                    assert(strings_view(l@) =~= seq![trim_ws_text(s@)]);
                    l
                },
                Some(Json::Array(items)) => {
                    match extends_list(&items) {
                        Some(l) => l,
                        None => {
                            return Err(ConfigDocError::ExtendsListNotPaths { path: owned(path) });
                        },
                    }
                },
                Some(_) => {
                    return Err(ConfigDocError::ExtendsNotPaths { path: owned(path) });
                },
            };
            Ok((Json::Object(es), list))
        },
        _ => Err(ConfigDocError::NotAnObject { path: owned(path) }),
    }
}

/// The file an extension names, from the file `path` that names it: a URL
/// is refused, an absolute path kept, and a relative one joined to the
/// directory of `path`.
pub open spec fn extend_path_text(path: Seq<char>, extend: Seq<char>) -> Option<Seq<char>> {
    if first_occurrence(extend, "://"@) is Some {
        None
    } else if is_absolute(extend) {
        Some(extend)
    } else {
        let (parts, absolute) = parent_parts(path);
        let base = if path_parts(path).len() == 0 {
            seq!['.']
        } else {
            render_path(parts, absolute)
        };
        Some(
            if base.len() == 0 {
                extend
            } else if base.last() == '/' {
                base + extend
            } else {
                base + seq!['/'] + extend
            },
        )
    }
}

/// The file an extension names.
pub fn resolve_extend_path(path: &str, extend: &str) -> (r: Result<String, ConfigDocError>)
    ensures
        match (r, extend_path_text(path@, extend@)) {
            (Ok(p), Some(q)) => p@ == q,
            (Err(e), None) => e matches ConfigDocError::RemoteExtension { extend: x } && x@ == extend@,
            _ => false,
        },
{
    let ev = chars_of(extend);
    let sep = chars_of("://");
    if find_chars(&ev, &sep).is_some() {
        return Err(ConfigDocError::RemoteExtension { extend: owned(extend) });
    }
    if ev.len() > 0 && ev[0] == '/' {
        return Ok(owned(extend));
    }
    let pv = chars_of(path);
    let path_absolute = pv.len() > 0 && pv[0] == '/';
    let mut parts = named_parts_of(&split_chars(&pv, '/'));
    let base = if parts.len() == 0 {
        let mut b = String::new();
        push_char(&mut b, '.');
        assert(b@ =~= seq!['.']);
        b
    } else {
        let ghost before = parts@;
        parts.pop();
        assert(views_of(parts@) =~= views_of(before).drop_last());
        render_path_of(&parts, path_absolute)
    };
    let bv = chars_of(base.as_str());
    let mut r = String::new();
    if bv.len() == 0 {
        push_str(&mut r, extend);
        return Ok(r);
    }
    push_str(&mut r, base.as_str());
    if bv[bv.len() - 1] != '/' {
        push_char(&mut r, '/');
    }
    push_str(&mut r, extend);
    Ok(r)
}

/// What a value found by a name is, in a document where every value is
/// well formed.
proof fn lemma_entries_get_well_formed(es: Seq<(String, Json)>, k: Seq<char>)
    requires
        forall|i: int| #![trigger es[i]] 0 <= i < es.len() ==> well_formed(es[i].1),
    ensures
        entries_get(es, k) matches Some(x) ==> well_formed(x),
    decreases es.len(),
{
    if es.len() > 0 {
        assert(well_formed(es[0].1));
        let t = es.drop_first();
        assert forall|i: int| #![trigger t[i]] 0 <= i < t.len() implies well_formed(t[i].1) by {
            assert(t[i] == es[i + 1]);
        }
        lemma_entries_get_well_formed(t, k);
    }
}

/// The value a name finds is the value of an entry with that name.
pub proof fn lemma_entries_get_index(es: Seq<(String, Json)>, k: Seq<char>) -> (i: int)
    requires
        entries_get(es, k) is Some,
    ensures
        0 <= i < es.len(),
        es[i].0@ == k,
        entries_get(es, k) == Some(es[i].1),
    decreases es.len(),
{
    if es[0].0@ == k {
        0
    } else {
        let j = lemma_entries_get_index(es.drop_first(), k);
        j + 1
    }
}

/// `after` is `before` with the top-level field `alias` folded into the
/// field `canonical`: merged over it when both are there, moved to it when
/// only the alias is.
pub open spec fn alias_merged(
    before: Seq<(String, Json)>,
    after: Seq<(String, Json)>,
    canonical: Seq<char>,
    alias: Seq<char>,
) -> bool {
    match entries_get(before, alias) {
        None => forall|k: Seq<char>| #[trigger] entries_get(after, k) == entries_get(before, k),
        Some(av) => {
            &&& entries_get(after, alias) is None
            &&& forall|k: Seq<char>|
                k != canonical && k != alias ==> #[trigger] entries_get(after, k) == entries_get(before, k)
            &&& match entries_get(before, canonical) {
                None => entries_get(after, canonical) == Some(av),
                Some(cv) => entries_get(after, canonical) matches Some(m) && merged(cv, av, m),
            }
        },
    }
}

fn merge_top_level_alias(es: &mut Vec<(String, Json)>, canonical: &str, alias: &str)
    requires
        canonical@ != alias@,
        entries_get(old(es)@, alias@) matches Some(x) ==> well_formed(x),
    ensures
        alias_merged(old(es)@, final(es)@, canonical@, alias@),
{
    let ghost before = es@;
    match remove_entry(es, alias) {
        None => {},
        Some(av) => {
            let ghost mid = es@;
            match first_index_of(es, canonical) {
                Some(j) => {
                    proof {
                        lemma_entries_get_first(mid, j as int, canonical@);
                    }
                    let (k, cv) = es.remove(j);
                    let m = merge_config_values(cv, av);
                    let ghost e = (k, m);
                    es.insert(j, (k, m));
                    proof {
                        assert(es@ =~= mid.update(j as int, e));
                        assert forall|q: Seq<char>| #![trigger entries_get(es@, q)] q != canonical@
                            implies entries_get(es@, q) == entries_get(mid, q) by {
                            lemma_entries_get_update(mid, j as int, e, q);
                        }
                        lemma_entries_get_update(mid, j as int, e, canonical@);
                    }
                },
                None => {
                    proof {
                        lemma_entries_get_absent(mid, canonical@);
                    }
                    es.push((owned(canonical), av));
                    proof {
                        assert forall|q: Seq<char>| #![trigger entries_get(es@, q)]
                            entries_get(es@, q) == if q == canonical@ {
                                Some(av)
                            } else {
                                entries_get(mid, q)
                            } by {
                            lemma_entries_get_push(mid, es@[mid.len() as int], q);
                        }
                    }
                },
            }
        },
    }
}

/// Folds the older names of top-level fields into the current ones:
/// `llmProviders` into `providers`, and `llmModels` and `modelLimits`, in
/// that order, into `models`.
pub fn normalize_config_document(doc: Json) -> (r: Json)
    requires
        well_formed(doc),
    ensures
        match doc {
            Json::Object(es) => r matches Json::Object(rs) && exists|e1: Seq<(String, Json)>, e2: Seq<(String, Json)>|
                #[trigger] alias_merged(es@, e1, "providers"@, "llmProviders"@) && #[trigger] alias_merged(
                    e1,
                    e2,
                    "models"@,
                    "llmModels"@,
                ) && alias_merged(e2, rs@, "models"@, "modelLimits"@),
            _ => r == doc,
        },
{
    proof {
        lemma_alias_keys();
    }
    match doc {
        Json::Object(mut es) => {
            let ghost e0 = es@;
            proof {
                assert(well_formed(doc));
                lemma_entries_get_well_formed(e0, "llmProviders"@);
                lemma_entries_get_well_formed(e0, "llmModels"@);
                lemma_entries_get_well_formed(e0, "modelLimits"@);
            }
            merge_top_level_alias(&mut es, "providers", "llmProviders");
            let ghost e1 = es@;
            merge_top_level_alias(&mut es, "models", "llmModels");
            let ghost e2 = es@;
            merge_top_level_alias(&mut es, "models", "modelLimits");
            assert(alias_merged(e0, e1, "providers"@, "llmProviders"@));
            assert(alias_merged(e1, e2, "models"@, "llmModels"@));
            assert(alias_merged(e2, es@, "models"@, "modelLimits"@));
            Json::Object(es)
        },
        other => other,
    }
}

/// The formats a configuration file can be written in.
#[derive(Clone, Copy, Debug, PartialEq, Eq, Structural)]
pub enum ConfigFormat {
    Toml,
    Yaml,
    Json,
}

/// The name of the file a path ends in, if it ends in one.
pub open spec fn file_name_of(p: Seq<char>) -> Option<Seq<char>> {
    let parts = path_parts(p);
    if parts.len() == 0 || parts.last() == seq!['.', '.'] {
        None
    } else {
        Some(parts.last())
    }
}

/// What follows the last `.` of a file name that does not start with it.
pub open spec fn extension_of(name: Seq<char>) -> Option<Seq<char>> {
    match last_index(name, '.') {
        Some(i) => if i > 0 {
            Some(name.subrange(i + 1, name.len() as int))
        } else {
            None
        },
        None => None,
    }
}

/// The extension a configuration file is read by: its own, or `toml`.
pub open spec fn config_extension(p: Seq<char>) -> Seq<char> {
    match file_name_of(p) {
        Some(name) => match extension_of(name) {
            Some(e) => e,
            None => "toml"@,
        },
        None => "toml"@,
    }
}

/// The format a configuration file is written in, by its extension.
pub fn config_format(path: &str) -> (r: Result<ConfigFormat, ConfigDocError>)
    ensures
        config_extension(path@) == "toml"@ ==> r == Ok::<ConfigFormat, ConfigDocError>(ConfigFormat::Toml),
        config_extension(path@) == "yaml"@ || config_extension(path@) == "yml"@ ==> r == Ok::<
            ConfigFormat,
            ConfigDocError,
        >(ConfigFormat::Yaml),
        config_extension(path@) == "json"@ ==> r == Ok::<ConfigFormat, ConfigDocError>(ConfigFormat::Json),
        !(config_extension(path@) == "toml"@ || config_extension(path@) == "yaml"@ || config_extension(path@)
            == "yml"@ || config_extension(path@) == "json"@) ==> (r matches Err(
            ConfigDocError::UnsupportedFormat { extension },
        ) && extension@ == config_extension(path@)),
{
    let parts = named_parts_of(&split_chars(&chars_of(path), '/'));
    let up: Vec<char> = vec!['.', '.'];
    let ext: String = if parts.len() == 0 || chars_eq(&parts[parts.len() - 1], &up) {
        owned("toml")
    } else {
        let name = &parts[parts.len() - 1];
        match rfind_char(name, '.') {
            Some(i) => if i > 0 {
                string_of(&sub_chars(name, i + 1, name.len()))
            } else {
                owned("toml")
            },
            None => owned("toml"),
        }
    };
    assert(ext@ == config_extension(path@));
    proof {
        lemma_format_names();
    }
    let e = ext.as_str();
    if str_eq(e, "toml") {
        Ok(ConfigFormat::Toml)
    } else if str_eq(e, "yaml") || str_eq(e, "yml") {
        Ok(ConfigFormat::Yaml)
    } else if str_eq(e, "json") {
        Ok(ConfigFormat::Json)
    } else {
        Err(ConfigDocError::UnsupportedFormat { extension: ext })
    }
}

/// A file's own value for a field wins over what it extends, unless both
/// are objects, which are merged.
pub proof fn lemma_overlay_field_wins(base: Json, overlay: Json, r: Json, k: Seq<char>)
    requires
        merged(base, overlay, r),
        overlay is Object,
        field(overlay, k) matches Some(x) && !(x is Object),
    ensures
        field(r, k) == field(overlay, k),
{
    match (base, overlay) {
        (Json::Object(bs), Json::Object(os)) => {
            let i = lemma_entries_get_index(os@, k);
            assert(os@[i].0@ == k);
            match entries_get(bs@, k) {
                None => {},
                Some(x) => {
                    let y = field(r, k)->0;
                    assert(merged(x, os@[i].1, y));
                },
            }
        },
        _ => {},
    }
}

/// Fields that a file does not set keep the values it extends.
pub proof fn lemma_unset_field_kept(base: Json, overlay: Json, r: Json, k: Seq<char>)
    requires
        merged(base, overlay, r),
        base is Object,
        overlay is Object,
        field(overlay, k) is None,
    ensures
        field(r, k) == field(base, k),
{
}

proof fn lemma_alias_keys()
    ensures
        "providers"@ != "llmProviders"@,
        "providers"@ != "models"@,
        "providers"@ != "llmModels"@,
        "providers"@ != "modelLimits"@,
        "providers"@ != "extends"@,
        "llmProviders"@ != "models"@,
        "llmProviders"@ != "llmModels"@,
        "llmProviders"@ != "modelLimits"@,
        "llmProviders"@ != "extends"@,
        "models"@ != "llmModels"@,
        "models"@ != "modelLimits"@,
        "models"@ != "extends"@,
        "llmModels"@ != "modelLimits"@,
        "llmModels"@ != "extends"@,
        "modelLimits"@ != "extends"@,
{
    reveal_strlit("providers");
    reveal_strlit("llmProviders");
    reveal_strlit("models");
    reveal_strlit("llmModels");
    reveal_strlit("modelLimits");
    reveal_strlit("extends");
    assert("providers"@.len() == 9);
    assert("llmProviders"@.len() == 12);
    assert("models"@.len() == 6);
    assert("llmModels"@.len() == 9);
    assert("modelLimits"@.len() == 11);
    assert("extends"@.len() == 7);
    assert("providers"@[0] != "llmModels"@[0]);
}


proof fn lemma_format_names()
    ensures
        "toml"@ != "yaml"@,
        "toml"@ != "yml"@,
        "toml"@ != "json"@,
        "yaml"@ != "yml"@,
        "yaml"@ != "json"@,
        "yml"@ != "json"@,
{
    reveal_strlit("toml");
    reveal_strlit("yaml");
    reveal_strlit("yml");
    reveal_strlit("json");
    assert("toml"@.len() == 4);
    assert("yaml"@.len() == 4);
    assert("yml"@.len() == 3);
    assert("json"@.len() == 4);
    assert("toml"@[0] != "yaml"@[0]);
    assert("toml"@[0] != "json"@[0]);
    assert("yaml"@[0] != "json"@[0]);
}


/// The format an extension names, if any.
pub open spec fn format_of_extension(e: Seq<char>) -> Option<ConfigFormat> {
    if e == "toml"@ {
        Some(ConfigFormat::Toml)
    } else if e == "yaml"@ || e == "yml"@ {
        Some(ConfigFormat::Yaml)
    } else if e == "json"@ {
        Some(ConfigFormat::Json)
    } else {
        None
    }
}

/// The document the parser of `format` reads `text` as.
pub open spec fn document_in(format: ConfigFormat, text: Seq<char>) -> Option<Json> {
    match format {
        ConfigFormat::Toml => toml_document(text),
        ConfigFormat::Yaml => yaml_document(text),
        ConfigFormat::Json => json_document(text),
    }
}

/// Reads a configuration file's text by the format of its extension: the
/// document that format's parser reads, the unknown extension refused, and
/// text that does not read refused with the file's path.
pub fn parse_config_value(path: &str, content: &str) -> (r: Result<Json, ConfigDocError>)
    ensures
        match format_of_extension(config_extension(path@)) {
            None => r matches Err(ConfigDocError::UnsupportedFormat { extension }) && extension@
                == config_extension(path@),
            Some(f) => match document_in(f, content@) {
                Some(d) => r matches Ok(j) && j == d,
                None => r matches Err(e) && match e {
                    ConfigDocError::Parse { format, path: p, .. } => format == f && p@ == path@,
                    ConfigDocError::TomlToJson { .. } => f == ConfigFormat::Toml,
                    _ => false,
                },
            },
        },
        r matches Ok(j) ==> well_formed(j),
{
    proof {
        lemma_format_names();
    }
    let format = config_format(path)?;
    match format {
        ConfigFormat::Toml => match read_toml_document(content) {
            Ok(j) => Ok(j),
            Err(TomlReadError::Parse(detail)) => Err(
                ConfigDocError::Parse { format, path: owned(path), detail },
            ),
            Err(TomlReadError::Convert(detail)) => Err(ConfigDocError::TomlToJson { detail }),
        },
        ConfigFormat::Yaml => match read_yaml_document(content) {
            Ok(j) => Ok(j),
            Err(detail) => Err(ConfigDocError::Parse { format, path: owned(path), detail }),
        },
        ConfigFormat::Json => match read_json_document(content) {
            Ok(j) => Ok(j),
            Err(detail) => Err(ConfigDocError::Parse { format, path: owned(path), detail }),
        },
    }
}

/// Reads inline YAML configuration text.
pub fn parse_inline_config(text: &str) -> (r: Result<Json, ConfigDocError>)
    ensures
        match yaml_document(text@) {
            Some(d) => r matches Ok(j) && j == d,
            None => r matches Err(ConfigDocError::InlineYaml { .. }),
        },
        r matches Ok(j) ==> well_formed(j),
{
    match read_yaml_document(text) {
        Ok(j) => Ok(j),
        Err(detail) => Err(ConfigDocError::InlineYaml { detail }),
    }
}

/// Whether `j` is what merging the documents `parents` in turn over an
/// empty object, and then `own` over that, gives; `ms` are the documents
/// along the way.
pub open spec fn chain_merged(parents: Seq<Json>, own: Json, ms: Seq<Json>, j: Json) -> bool {
    &&& ms.len() == parents.len() + 1
    &&& ms[0] matches Json::Object(es) && es@.len() == 0
    &&& forall|i: int| 0 <= i < parents.len() ==> merged(#[trigger] ms[i], parents[i], ms[i + 1])
    &&& merged(ms[parents.len() as int], own, j)
}

/// The document of a file that extends `parents`, read in order: each
/// parent merged in turn over an empty object, then the file's own
/// document over them all. Nothing when a document names a field twice.
#[verifier::rlimit(40)]
pub fn merge_extended(parents: Vec<Json>, own: Json) -> (r: Option<Json>)
    ensures
        r is Some <==> (forall|i: int| 0 <= i < parents@.len() ==> well_formed(#[trigger] parents@[i]))
            && well_formed(own),
        r matches Some(j) ==> exists|ms: Seq<Json>| chain_merged(parents@, own, ms, j),
{
    let ghost all = parents@;
    assert(all.len() == parents.len());
    let mut rest = parents;
    let mut cur = Json::Object(Vec::new());
    let ghost mut ms: Seq<Json> = seq![cur];
    let mut i: usize = 0;
    while rest.len() > 0
        invariant
            all == parents@,
            all.len() <= usize::MAX,
            i <= all.len(),
            rest@ == all.subrange(i as int, all.len() as int),
            ms.len() == i + 1,
            ms[0] matches Json::Object(es) && es@.len() == 0,
            ms[i as int] == cur,
            forall|k: int| 0 <= k < i ==> merged(#[trigger] ms[k], all[k], ms[k + 1]),
            forall|k: int| 0 <= k < i ==> well_formed(#[trigger] all[k]),
        decreases rest.len(),
    {
        let p = rest.remove(0);
        assert(p == all[i as int]);
        if !json_well_formed(&p) {
            return None;
        }
        let next = merge_config_values(cur, p);
        let ghost old_ms = ms;
        proof {
            ms = ms.push(next);
            assert forall|k: int| 0 <= k < i + 1 implies merged(#[trigger] ms[k], all[k], ms[k + 1]) by {
                if k < i {
                    assert(ms[k] == old_ms[k] && ms[k + 1] == old_ms[k + 1]);
                }
            }
        }
        cur = next;
        i += 1;
    }
    assert(i == all.len());
    if !json_well_formed(&own) {
        return None;
    }
    let j = merge_config_values(cur, own);
    assert(chain_merged(all, own, ms, j));
    Some(j)
}

} // verus!
