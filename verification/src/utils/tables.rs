//! The collections of outside crates that the library is built on: the
//! string interner and the hash sets of the visited-link store, and the hash
//! maps that hold scripts by link. Verus does not look inside them: what each
//! call does is stated here as its documentation and source give it, and is
//! believed, not proved.

use crate::features::chrome_common::WebAutomation;
use vstd::prelude::*;

verus! {

/// A string interner of the `string_interner` crate with its default backend
/// and 32-bit symbols.
#[verifier::external_body]
pub struct Interner {
    inner: string_interner::StringInterner<
        string_interner::backend::StringBackend<string_interner::symbol::SymbolU32>,
    >,
}

/// The texts an interner holds, each at the position its symbol names.
pub uninterp spec fn interned(interner: Interner) -> Seq<Seq<char>>;

/// A hash set of the `hashbrown` crate that holds symbol positions.
#[verifier::external_body]
pub struct SymbolSet {
    inner: hashbrown::HashSet<u32>,
}

/// The positions a symbol set holds.
pub uninterp spec fn symbols(set: SymbolSet) -> Set<u32>;

impl Interner {
    /// `StringInterner::default`: an interner that holds no text.
    #[verifier::external_body]
    pub(crate) fn new() -> (r: Interner)
        ensures
            interned(r) == Seq::<Seq<char>>::empty(),
    {
        Interner { inner: string_interner::StringInterner::default() }
    }

    /// `StringInterner::len`: the number of texts held.
    #[verifier::external_body]
    pub(crate) fn len(&self) -> (r: usize)
        ensures
            r == interned(*self).len(),
    {
        self.inner.len()
    }

    /// `StringInterner::get`: the position of a text that is held, `None` for
    /// a text that is not. The interner is left as it is.
    #[verifier::external_body]
    pub(crate) fn get(&self, text: &str) -> (r: Option<u32>)
        ensures
            match r {
                Some(i) => (i as int) < interned(*self).len() && interned(*self)[i as int]
                    == text@,
                None => !interned(*self).contains(text@),
            },
    {
        match self.inner.get(text) {
            Some(symbol) => Some(string_interner::Symbol::to_usize(symbol) as u32),
            None => None,
        }
    }

    /// `StringInterner::get_or_intern`: a text that is held keeps its
    /// position and nothing changes; a new text is appended behind the texts
    /// held so far. Either way the position of the text is returned. The
    /// crate panics once its 32-bit symbols are used up, so a new text needs
    /// a free position.
    #[verifier::external_body]
    pub(crate) fn get_or_intern(&mut self, text: &str) -> (r: u32)
        requires
            interned(*old(self)).contains(text@) || interned(*old(self)).len() < u32::MAX,
        ensures
            interned(*final(self)) == if interned(*old(self)).contains(text@) {
                interned(*old(self))
            } else {
                interned(*old(self)).push(text@)
            },
            (r as int) < interned(*final(self)).len(),
            interned(*final(self))[r as int] == text@,
    {
        string_interner::Symbol::to_usize(self.inner.get_or_intern(text)) as u32
    }

    /// `StringInterner::resolve`: the text at a position, `None` for a
    /// position behind the last text.
    #[verifier::external_body]
    pub(crate) fn resolve(&self, index: u32) -> (r: Option<&str>)
        ensures
            match r {
                Some(text) => (index as int) < interned(*self).len() && text@ == interned(
                    *self,
                )[index as int],
                None => index as int >= interned(*self).len(),
            },
    {
        match <string_interner::symbol::SymbolU32 as string_interner::Symbol>::try_from_usize(
            index as usize,
        ) {
            Some(symbol) => self.inner.resolve(symbol),
            None => None,
        }
    }
}

impl SymbolSet {
    /// `HashSet::new`: an empty set.
    #[verifier::external_body]
    pub(crate) fn new() -> (r: SymbolSet)
        ensures
            symbols(r) == Set::<u32>::empty(),
    {
        SymbolSet { inner: hashbrown::HashSet::new() }
    }

    /// `HashSet::insert`: the value joins the set; the result tells whether it
    /// was new.
    #[verifier::external_body]
    pub(crate) fn insert(&mut self, value: u32) -> (r: bool)
        ensures
            symbols(*final(self)) == symbols(*old(self)).insert(value),
            r == !symbols(*old(self)).contains(value),
    {
        self.inner.insert(value)
    }

    /// `HashSet::contains`: whether the value is in the set.
    #[verifier::external_body]
    pub(crate) fn contains(&self, value: u32) -> (r: bool)
        ensures
            r == symbols(*self).contains(value),
    {
        self.inner.contains(&value)
    }

    /// `HashSet::len`: the number of values in the set.
    #[verifier::external_body]
    pub(crate) fn len(&self) -> (r: usize)
        ensures
            symbols(*self).finite() ==> r == symbols(*self).len(),
    {
        self.inner.len()
    }

    /// `HashSet::clear`: the set is emptied.
    #[verifier::external_body]
    pub(crate) fn clear(&mut self)
        ensures
            symbols(*final(self)) == Set::<u32>::empty(),
    {
        self.inner.clear()
    }

    /// `HashSet::drain`: the set is emptied and its values are handed out,
    /// each once, in no promised order.
    #[verifier::external_body]
    pub(crate) fn drain(&mut self) -> (r: Vec<u32>)
        ensures
            symbols(*final(self)) == Set::<u32>::empty(),
            r@.no_duplicates(),
            r@.to_set() == symbols(*old(self)),
    {
        self.inner.drain().collect()
    }

    /// `HashSet::iter`: the values of the set, each once, in no promised
    /// order. The set is left as it is.
    #[verifier::external_body]
    pub(crate) fn values(&self) -> (r: Vec<u32>)
        ensures
            r@.no_duplicates(),
            r@.to_set() == symbols(*self),
    {
        self.inner.iter().copied().collect()
    }
}

/// A hash set of the `hashbrown` crate that holds texts.
#[verifier::external_body]
pub struct TextSet {
    inner: hashbrown::HashSet<String>,
}

/// The texts a text set holds.
pub uninterp spec fn text_set(set: TextSet) -> Set<Seq<char>>;

impl TextSet {
    /// `HashSet::new`: an empty set.
    #[verifier::external_body]
    pub(crate) fn new() -> (r: TextSet)
        ensures
            text_set(r) == Set::<Seq<char>>::empty(),
    {
        TextSet { inner: hashbrown::HashSet::new() }
    }

    /// `HashSet::insert`: the text joins the set; the result tells whether it
    /// was new.
    #[verifier::external_body]
    pub(crate) fn insert(&mut self, text: String) -> (r: bool)
        ensures
            text_set(*final(self)) == text_set(*old(self)).insert(text@),
            r == !text_set(*old(self)).contains(text@),
    {
        self.inner.insert(text)
    }

    /// `HashSet::contains`: whether the text is in the set.
    #[verifier::external_body]
    pub(crate) fn contains(&self, text: &str) -> (r: bool)
        ensures
            r == text_set(*self).contains(text@),
    {
        self.inner.contains(text)
    }

    /// `HashSet::len`: the number of texts in the set.
    #[verifier::external_body]
    pub(crate) fn len(&self) -> (r: usize)
        ensures
            text_set(*self).finite() ==> r == text_set(*self).len(),
    {
        self.inner.len()
    }

    /// `HashSet::into_iter`: the texts of the set, each once, in no promised
    /// order.
    #[verifier::external_body]
    pub(crate) fn into_texts(self) -> (r: Vec<String>)
        ensures
            forall|i: int, j: int| 0 <= i < j < r@.len() ==> r@[i]@ != r@[j]@,
            forall|t: Seq<char>|
                text_set(self).contains(t) <==> exists|i: int|
                    0 <= i < r@.len() && #[trigger] r@[i]@ == t,
    {
        self.inner.into_iter().collect()
    }
}

/// A hash map of the `hashbrown` crate from a link to the text of a script.
#[verifier::external_body]
pub struct ScriptTable {
    inner: hashbrown::HashMap<String, String>,
}

/// The entries of a script table.
pub uninterp spec fn script_table(table: ScriptTable) -> Map<Seq<char>, Seq<char>>;

impl ScriptTable {
    /// `HashMap::new`: a map in which no key is bound.
    #[verifier::external_body]
    pub(crate) fn new() -> (r: ScriptTable)
        ensures
            script_table(r).dom() == Set::<Seq<char>>::empty(),
    {
        ScriptTable { inner: hashbrown::HashMap::new() }
    }

    /// `HashMap::insert`: the key is bound to the value, in place of what it
    /// was bound to before.
    #[verifier::external_body]
    pub(crate) fn insert(&mut self, key: String, value: String)
        ensures
            script_table(*final(self)) == script_table(*old(self)).insert(key@, value@),
    {
        self.inner.insert(key, value);
    }

    /// `HashMap::get`: what the key is bound to, `None` for a key that is not
    /// bound.
    #[verifier::external_body]
    pub(crate) fn get(&self, key: &str) -> (r: Option<&String>)
        ensures
            match r {
                Some(value) => script_table(*self).contains_key(key@) && value@ == script_table(
                    *self,
                )[key@],
                None => !script_table(*self).contains_key(key@),
            },
    {
        self.inner.get(key)
    }
}

/// A hash map of the `hashbrown` crate from a link to the steps of an
/// automation script.
#[verifier::external_body]
pub struct AutomationTable {
    inner: hashbrown::HashMap<String, Vec<WebAutomation>>,
}

/// The entries of an automation table.
pub uninterp spec fn automation_table(table: AutomationTable) -> Map<
    Seq<char>,
    Seq<WebAutomation>,
>;

impl AutomationTable {
    /// `HashMap::new`: a map in which no key is bound.
    #[verifier::external_body]
    pub(crate) fn new() -> (r: AutomationTable)
        ensures
            automation_table(r).dom() == Set::<Seq<char>>::empty(),
    {
        AutomationTable { inner: hashbrown::HashMap::new() }
    }

    /// `HashMap::insert`: the key is bound to the value, in place of what it
    /// was bound to before.
    #[verifier::external_body]
    pub(crate) fn insert(&mut self, key: String, value: Vec<WebAutomation>)
        ensures
            automation_table(*final(self)) == automation_table(*old(self)).insert(key@, value@),
    {
        self.inner.insert(key, value);
    }

    /// `HashMap::get`: what the key is bound to, `None` for a key that is not
    /// bound.
    #[verifier::external_body]
    pub(crate) fn get(&self, key: &str) -> (r: Option<&Vec<WebAutomation>>)
        ensures
            match r {
                Some(value) => automation_table(*self).contains_key(key@) && value@
                    == automation_table(*self)[key@],
                None => !automation_table(*self).contains_key(key@),
            },
    {
        self.inner.get(key)
    }
}

} // verus!
