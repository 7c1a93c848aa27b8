use vstd::prelude::*;

use crate::text::{chars_of, find_from, occurs_at, str_eq, string_of, trim_of, trimmed};

verus! {

/// Status of a single deployment, as the status report lists it.
#[derive(Debug, Clone)]
pub struct DeploymentStatus {
    pub name: String,
    pub desired: i32,
    pub ready: i32,
    pub image: String,
}

/// The resource kinds that the apply step knows how to apply.
#[derive(Debug, Clone, Copy, PartialEq, Eq, Structural)]
pub enum ResourceKind {
    Namespace,
    Deployment,
    Service,
    ConfigMap,
    Secret,
    PersistentVolumeClaim,
    ServiceAccount,
    Role,
    RoleBinding,
    NetworkPolicy,
}

/// The supported kind named `k`, if any.
pub open spec fn kind_named(k: Seq<char>) -> Option<ResourceKind> {
    if k == "Namespace"@ {
        Some(ResourceKind::Namespace)
    } else if k == "Deployment"@ {
        Some(ResourceKind::Deployment)
    } else if k == "Service"@ {
        Some(ResourceKind::Service)
    } else if k == "ConfigMap"@ {
        Some(ResourceKind::ConfigMap)
    } else if k == "Secret"@ {
        Some(ResourceKind::Secret)
    } else if k == "PersistentVolumeClaim"@ {
        Some(ResourceKind::PersistentVolumeClaim)
    } else if k == "ServiceAccount"@ {
        Some(ResourceKind::ServiceAccount)
    } else if k == "Role"@ {
        Some(ResourceKind::Role)
    } else if k == "RoleBinding"@ {
        Some(ResourceKind::RoleBinding)
    } else if k == "NetworkPolicy"@ {
        Some(ResourceKind::NetworkPolicy)
    } else {
        None
    }
}

/// Whether a resource kind lives inside a namespace.
pub open spec fn spec_is_namespaced(k: ResourceKind) -> bool {
    k != ResourceKind::Namespace
}

impl ResourceKind {
    /// The supported kind of a resource document; none for any other kind,
    /// which the apply step refuses.
    pub fn from_kind(kind: &str) -> (r: Option<ResourceKind>)
        ensures
            r == kind_named(kind@),
    {
        if str_eq(kind, "Namespace") {
            Some(ResourceKind::Namespace)
        } else if str_eq(kind, "Deployment") {
            Some(ResourceKind::Deployment)
        } else if str_eq(kind, "Service") {
            Some(ResourceKind::Service)
        } else if str_eq(kind, "ConfigMap") {
            Some(ResourceKind::ConfigMap)
        } else if str_eq(kind, "Secret") {
            Some(ResourceKind::Secret)
        } else if str_eq(kind, "PersistentVolumeClaim") {
            Some(ResourceKind::PersistentVolumeClaim)
        } else if str_eq(kind, "ServiceAccount") {
            Some(ResourceKind::ServiceAccount)
        } else if str_eq(kind, "Role") {
            Some(ResourceKind::Role)
        } else if str_eq(kind, "RoleBinding") {
            Some(ResourceKind::RoleBinding)
        } else if str_eq(kind, "NetworkPolicy") {
            Some(ResourceKind::NetworkPolicy)
        } else {
            None
        }
    }

    /// Whether resources of this kind live inside a namespace.
    pub fn is_namespaced(&self) -> (r: bool)
        ensures
            r == spec_is_namespaced(*self),
    {
        *self != ResourceKind::Namespace
    }
}

/// `i` is the first position at or after `start` where `sep` occurs in `s`.
pub open spec fn next_occurrence(s: Seq<char>, sep: Seq<char>, start: int, i: int) -> bool {
    &&& start <= i
    &&& occurs_at(s, sep, i)
    &&& forall|j: int| start <= j < i ==> !occurs_at(s, sep, j)
}

/// The pieces of `s` from `start` on, cut at each occurrence of a non-empty
/// separator, left to right.
pub open spec fn pieces_from(s: Seq<char>, sep: Seq<char>, start: int) -> Seq<Seq<char>>
    decreases s.len() - start,
{
    if start < 0 || start > s.len() {
        Seq::empty()
    } else if sep.len() > 0 && exists|i: int| next_occurrence(s, sep, start, i) {
        let i = choose|i: int| next_occurrence(s, sep, start, i);
        seq![s.subrange(start, i)] + pieces_from(s, sep, i + sep.len())
    } else {
        seq![s.subrange(start, s.len() as int)]
    }
}

/// Whether a trimmed piece holds a document: not empty, not a comment.
pub open spec fn is_document(t: Seq<char>) -> bool {
    t.len() > 0 && t[0] != '#'
}

/// The documents among the pieces, trimmed.
pub open spec fn documents(pieces: Seq<Seq<char>>) -> Seq<Seq<char>>
    decreases pieces.len(),
{
    if pieces.len() == 0 {
        Seq::empty()
    } else {
        let t = trim_of(pieces[0]);
        let rest = documents(pieces.skip(1));
        if is_document(t) {
            seq![t] + rest
        } else {
            rest
        }
    }
}

/// The documents of a multi-document text, as the apply step reads them.
pub open spec fn yaml_documents(yaml: Seq<char>) -> Seq<Seq<char>> {
    documents(pieces_from(yaml, "\n---"@, 0))
}

proof fn lemma_next_unique(s: Seq<char>, sep: Seq<char>, start: int, i: int, j: int)
    requires
        next_occurrence(s, sep, start, i),
        next_occurrence(s, sep, start, j),
    ensures
        i == j,
{
    if i < j {
        assert(!occurs_at(s, sep, i));
    }
    if j < i {
        assert(!occurs_at(s, sep, j));
    }
}

proof fn lemma_documents_cons(p: Seq<char>, rest: Seq<Seq<char>>)
    ensures
        documents(seq![p] + rest) == (if is_document(trim_of(p)) {
            seq![trim_of(p)]
        } else {
            Seq::<Seq<char>>::empty()
        }) + documents(rest),
{
    let ps = seq![p] + rest;
    assert(ps[0] == p);
    assert(ps.skip(1) =~= rest);
    if !is_document(trim_of(p)) {
        assert(Seq::<Seq<char>>::empty() + documents(rest) =~= documents(rest));
    }
}

fn piece_text(sc: &Vec<char>, from: usize, to: usize) -> (r: String)
    requires
        from <= to <= sc@.len(),
    ensures
        r@ == sc@.subrange(from as int, to as int),
{
    let mut out: Vec<char> = Vec::new();
    let mut k: usize = from;
    while k < to
        invariant
            from <= k <= to <= sc@.len(),
            out@ == sc@.subrange(from as int, k as int),
        decreases to - k,
    {
        out.push(sc[k]);
        k += 1;
        assert(out@ =~= sc@.subrange(from as int, k as int));
    }
    string_of(&out)
}

fn keep_document(out: &mut Vec<String>, piece: &String)
    ensures
        final(out)@.map_values(|d: String| d@) == old(out)@.map_values(|d: String| d@) + (if is_document(
            trim_of(piece@),
        ) {
            seq![trim_of(piece@)]
        } else {
            Seq::<Seq<char>>::empty()
        }),
{
    let t = trimmed(piece.as_str());
    let ghost before = out@;
    if t.as_str().unicode_len() > 0 && t.as_str().get_char(0) != '#' {
        out.push(t);
        assert(out@.map_values(|d: String| d@) =~= before.map_values(|d: String| d@) + seq![trim_of(
            piece@,
        )]);
    } else {
        assert(out@.map_values(|d: String| d@) =~= before.map_values(|d: String| d@)
            + Seq::<Seq<char>>::empty());
    }
}

/// Splits a multi-document text at each `\n---`, trims the pieces, and keeps
/// those that are neither empty nor comments.
pub fn split_documents(yaml: &str) -> (r: Vec<String>)
    ensures
        r@.map_values(|d: String| d@) == yaml_documents(yaml@),
{
    proof {
        reveal_strlit("\n---");
    }
    let sc = chars_of(yaml);
    let sepc = chars_of("\n---");
    let ghost s = yaml@;
    let ghost sep = "\n---"@;
    let mut out: Vec<String> = Vec::new();
    let mut start: usize = 0;
    assert(out@.map_values(|d: String| d@) + documents(pieces_from(s, sep, 0)) =~= documents(
        pieces_from(s, sep, 0),
    ));
    loop
        invariant
            sc@ == s,
            s == yaml@,
            sep == "\n---"@,
            sepc@ == sep,
            sep.len() == 4,
            start <= sc@.len(),
            out@.map_values(|d: String| d@) + documents(pieces_from(s, sep, start as int))
                == documents(pieces_from(s, sep, 0)),
        decreases sc@.len() - start,
    {
        let ghost done = out@.map_values(|d: String| d@);
        match find_from(&sc, &sepc, start) {
            Some(j) => {
                proof {
                    assert(next_occurrence(s, sep, start as int, j as int));
                    let i = choose|i: int| next_occurrence(s, sep, start as int, i);
                    lemma_next_unique(s, sep, start as int, i, j as int);
                    lemma_documents_cons(
                        s.subrange(start as int, j as int),
                        pieces_from(s, sep, j + sep.len()),
                    );
                }
                let piece = piece_text(&sc, start, j);
                keep_document(&mut out, &piece);
                assert(j + sepc@.len() <= sc@.len());
                let n = sc.len();
                start = j + sepc.len();
            },
            None => {
                proof {
                    assert(!exists|i: int| next_occurrence(s, sep, start as int, i));
                    lemma_documents_cons(
                        s.subrange(start as int, s.len() as int),
                        Seq::<Seq<char>>::empty(),
                    );
                    assert(seq![s.subrange(start as int, s.len() as int)] + Seq::<Seq<char>>::empty()
                        =~= seq![s.subrange(start as int, s.len() as int)]);
                }
                let piece = piece_text(&sc, start, sc.len());
                keep_document(&mut out, &piece);
                assert(out@.map_values(|d: String| d@) =~= done + documents(
                    pieces_from(s, sep, start as int),
                ));
                assert(out@.map_values(|d: String| d@) =~= documents(pieces_from(s, sep, 0)));
                assert(yaml_documents(yaml@) == documents(pieces_from(s, sep, 0)));
                return out;
            },
        }
    }
}

} // verus!
