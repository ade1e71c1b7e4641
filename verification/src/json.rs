use vstd::prelude::*;

verus! {

broadcast use vstd::string::group_string_axioms;

/// A JSON document, held as a tree of plain values. Numbers keep their
/// source text so that decimal formatting survives a round trip; an object
/// keeps its members in order.
#[derive(Debug, PartialEq, Eq)]
pub enum Json {
    Null,
    Bool(bool),
    Num(String),
    Str(String),
    Arr(Vec<Json>),
    Obj(Vec<(String, Json)>),
}

/// The value of the first member named `k`, if the object has one.
pub open spec fn obj_get(fs: Seq<(String, Json)>, k: Seq<char>) -> Option<Json>
    decreases fs.len(),
{
    if fs.len() == 0 {
        None
    } else if fs[0].0@ == k {
        Some(fs[0].1)
    } else {
        obj_get(fs.drop_first(), k)
    }
}

/// Appending a member changes a lookup only when the key was absent and the
/// new member carries it.
pub broadcast proof fn lemma_obj_get_push(fs: Seq<(String, Json)>, e: (String, Json), k: Seq<char>)
    ensures
        #[trigger] obj_get(fs.push(e), k) == (if obj_get(fs, k) is Some {
            obj_get(fs, k)
        } else if e.0@ == k {
            Some(e.1)
        } else {
            None
        }),
    decreases fs.len(),
{
    if fs.len() == 0 {
        assert(fs.push(e)[0] == e);
        if e.0@ == k {
            assert(obj_get(fs.push(e), k) == Some(e.1));
        } else {
            assert(fs.push(e).drop_first() =~= Seq::<(String, Json)>::empty());
            assert(obj_get(Seq::<(String, Json)>::empty(), k) is None);
        }
    } else {
        assert(fs.push(e)[0] == fs[0]);
        if fs[0].0@ == k {
            assert(obj_get(fs.push(e), k) == Some(fs[0].1));
        } else {
            assert(fs.push(e).drop_first() =~= fs.drop_first().push(e));
            lemma_obj_get_push(fs.drop_first(), e, k);
        }
    }
}

/// Character-for-character string comparison.
pub fn str_eq(a: &str, b: &str) -> (r: bool)
    ensures
        r == (a@ == b@),
{
    let la = a.unicode_len();
    let lb = b.unicode_len();
    if la != lb {
        return false;
    }
    let mut i: usize = 0;
    while i < la
        invariant
            i <= la,
            la == a@.len(),
            la == b@.len(),
            forall|j: int| 0 <= j < i ==> a@[j] == b@[j],
        decreases la - i,
    {
        if a.get_char(i) != b.get_char(i) {
            return false;
        }
        i = i + 1;
    }
    proof {
        assert(a@ =~= b@);
    }
    true
}

/// Finds the first member named `k`, as `obj_get` describes.
pub fn obj_get_x<'a>(fs: &'a Vec<(String, Json)>, k: &str) -> (r: Option<&'a Json>)
    ensures
        match r {
            Some(j) => obj_get(fs@, k@) == Some(*j),
            None => obj_get(fs@, k@) is None,
        },
{
    let n = fs.len();
    proof {
        assert(fs@.skip(0) =~= fs@);
    }
    let mut i: usize = 0;
    while i < n
        invariant
            i <= n,
            n == fs@.len(),
            obj_get(fs@, k@) == obj_get(fs@.skip(i as int), k@),
        decreases n - i,
    {
        let hit = str_eq(fs[i].0.as_str(), k);
        proof {
            assert(fs@.skip(i as int)[0] == fs@[i as int]);
        }
        if hit {
            return Some(&fs[i].1);
        }
        proof {
            assert(fs@.skip(i as int).drop_first() =~= fs@.skip(i as int + 1));
        }
        i = i + 1;
    }
    proof {
        assert(fs@.skip(n as int) =~= Seq::empty());
    }
    None
}

} // verus!
