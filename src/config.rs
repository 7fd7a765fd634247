//! Read-only descriptions of indices that already exist in storage.
use vstd::prelude::*;
use crate::error::IndexError;
use crate::text::{debug_quoted, same_text, quote_debug};
use vstd::string::StringExecFns;

verus! {

/// A description of an index currently configured on a table.
pub struct IndexConfig {
    /// The type of the index.
    pub index_type: String,
    /// The columns in the index. Currently always one; more would describe a
    /// composite index.
    pub columns: Vec<String>,
    /// Name of the index.
    pub name: String,
}

/// A descriptor field, as looked up by key.
#[derive(Clone, Debug, PartialEq, Eq)]
pub enum FieldValue {
    Text(String),
    List(Vec<String>),
}

/// Pieces of text joined with `", "` between neighbours.
pub open spec fn joined(parts: Seq<Seq<char>>) -> Seq<char>
    decreases parts.len(),
{
    if parts.len() == 0 {
        Seq::empty()
    } else if parts.len() == 1 {
        parts[0]
    } else {
        joined(parts.drop_last()) + ", "@ + parts.last()
    }
}

/// The text of a descriptor whose columns, already quoted, are `quoted`.
pub open spec fn repr_text(
    index_type: Seq<char>,
    quoted: Seq<Seq<char>>,
    name: Seq<char>,
) -> Seq<char> {
    "Index("@ + index_type + ", columns=["@ + joined(quoted) + "], name=\""@ + name + "\")"@
}

/// The characters of each string of a list.
pub open spec fn texts(v: Seq<String>) -> Seq<Seq<char>> {
    v.map_values(|s: String| s@)
}

/// The keys a descriptor answers to; `index_name` is an alias of `name`.
pub open spec fn known_key(key: Seq<char>) -> bool {
    key == "index_type"@ || key == "columns"@ || key == "name"@ || key == "index_name"@
}

/// `v` is the field of `c` that `key` names.
pub open spec fn field_of(c: IndexConfig, key: Seq<char>, v: FieldValue) -> bool {
    if key == "index_type"@ {
        v is Text && v->Text_0@ == c.index_type@
    } else if key == "columns"@ {
        v is List && v->List_0@ == c.columns@
    } else if key == "name"@ || key == "index_name"@ {
        v is Text && v->Text_0@ == c.name@
    } else {
        false
    }
}

/// Looking a descriptor field up under `index_name` gives exactly what
/// looking it up under `name` gives, and both keys are known.
pub proof fn lemma_index_name_alias(c: IndexConfig, v: FieldValue)
    ensures
        known_key("name"@),
        known_key("index_name"@),
        field_of(c, "index_name"@, v) == field_of(c, "name"@, v),
{
    reveal_strlit("index_type");
    reveal_strlit("columns");
    reveal_strlit("name");
    reveal_strlit("index_name");
    assert("index_name"@[6] != "index_type"@[6]);
    assert("index_name"@.len() != "columns"@.len());
    assert("name"@.len() != "index_type"@.len());
    assert("name"@.len() != "columns"@.len());
}

fn copy_texts(v: &Vec<String>) -> (r: Vec<String>)
    ensures
        r@ == v@,
{
    let mut r: Vec<String> = Vec::new();
    let mut i: usize = 0;
    while i < v.len()
        invariant
            i <= v@.len(),
            r@ == v@.subrange(0, i as int),
        decreases v@.len() - i,
    {
        r.push(v[i].clone());
        i = i + 1;
        assert(r@ =~= v@.subrange(0, i as int));
    }
    assert(r@ =~= v@);
    r
}

impl IndexConfig {
    /// A descriptor built from the engine's description of an index: its
    /// type tag, its columns and its name.
    pub fn from_engine(index_type: String, columns: Vec<String>, name: String) -> (r: IndexConfig)
        ensures
            r.index_type == index_type,
            r.columns == columns,
            r.name == name,
    {
        IndexConfig { index_type, columns, name }
    }

    /// The descriptor's text, given its columns already quoted in order:
    /// `Index(<type>, columns=[<quoted>, ...], name="<name>")`.
    pub fn repr_with(&self, quoted: &Vec<String>) -> (r: String)
        ensures
            r@ == repr_text(self.index_type@, texts(quoted@), self.name@),
    {
        let mut s = String::new();
        s.append("Index(");
        s.append(self.index_type.as_str());
        s.append(", columns=[");
        let ghost head = s@;
        let mut i: usize = 0;
        while i < quoted.len()
            invariant
                i <= quoted@.len(),
                s@ == head + joined(texts(quoted@).subrange(0, i as int)),
            decreases quoted@.len() - i,
        {
            let ghost before = texts(quoted@).subrange(0, i as int);
            let ghost after = texts(quoted@).subrange(0, i + 1);
            assert(after.drop_last() =~= before);
            if i > 0 {
                s.append(", ");
            }
            s.append(quoted[i].as_str());
            i = i + 1;
            assert(s@ =~= head + joined(after));
        }
        assert(texts(quoted@).subrange(0, i as int) =~= texts(quoted@));
        s.append("], name=\"");
        s.append(self.name.as_str());
        s.append("\")");
        assert(s@ =~= repr_text(self.index_type@, texts(quoted@), self.name@));
        s
    }

    /// The descriptor's text: `Index(<type>, columns=[...], name="<name>")`,
    /// each column quoted and escaped as `{:?}` renders a string.
    pub fn __repr__(&self) -> (r: String)
        ensures
            r@ == repr_text(
                self.index_type@,
                texts(self.columns@).map_values(|c: Seq<char>| debug_quoted(c)),
                self.name@,
            ),
    {
        let mut quoted: Vec<String> = Vec::new();
        let mut i: usize = 0;
        while i < self.columns.len()
            invariant
                i <= self.columns@.len(),
                quoted@.len() == i,
                forall|j: int| 0 <= j < i ==> #[trigger] quoted@[j]@ == debug_quoted(self.columns@[j]@),
            decreases self.columns@.len() - i,
        {
            quoted.push(quote_debug(self.columns[i].as_str()));
            i = i + 1;
        }
        assert(texts(quoted@) =~= texts(self.columns@).map_values(|c: Seq<char>| debug_quoted(c)));
        self.repr_with(&quoted)
    }

    /// The field named by `key`: `index_type`, `columns`, `name`, or
    /// `index_name` as another name for `name`. Any other key is refused.
    pub fn __getitem__(&self, key: String) -> (r: Result<FieldValue, IndexError>)
        ensures
            known_key(key@) ==> r is Ok && field_of(*self, key@, r->Ok_0),
            !known_key(key@) ==> r is Err && r->Err_0 == (IndexError::InvalidKey { key }),
    {
        if same_text(key.as_str(), "index_type") {
            Ok(FieldValue::Text(self.index_type.clone()))
        } else if same_text(key.as_str(), "columns") {
            Ok(FieldValue::List(copy_texts(&self.columns)))
        } else if same_text(key.as_str(), "name") || same_text(key.as_str(), "index_name") {
            Ok(FieldValue::Text(self.name.clone()))
        } else {
            Err(IndexError::InvalidKey { key })
        }
    }
}

} // verus!
