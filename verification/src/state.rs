//! Records held in durable storage, and the typed store that holds them.
//!
//! The host supplies a key-value store with exact-match get/put/delete. This
//! module models its two logical regions — a single configuration record and
//! a collection of invoices keyed by identifier — as a [`Store`] value whose
//! operations carry contracts. The hosting shell owns moving a `Store`'s
//! contents in and out of the real key-value store.

use vstd::prelude::*;

verus! {

/// Configuration state of one module instance, created once at
/// initialization and never deleted.
#[derive(Debug, PartialEq)]
pub struct State {
    /// The only principal permitted to add or cancel invoices.
    pub admin: String,
    /// Recipient of settled funds on payment.
    pub recipient: String,
    /// The single accepted asset identifier for all invoices.
    pub denom: String,
    /// Descriptive label, carried for display only.
    pub business_name: String,
}

impl Clone for State {
    fn clone(&self) -> (r: State)
        ensures
            r == *self,
    {
        State {
            admin: self.admin.clone(),
            recipient: self.recipient.clone(),
            denom: self.denom.clone(),
            business_name: self.business_name.clone(),
        }
    }
}

/// One invoice. Its presence in the store means "owed, unpaid, uncancelled";
/// there is no separate status field.
#[derive(Debug, PartialEq)]
pub struct Invoice {
    /// Unique identifier, a syntactically valid UUID string.
    pub id: String,
    /// Strictly positive quantity, denominated in the configuration's denom.
    pub amount: u128,
    /// Optional free-text annotation, 1 to 64 bytes when present.
    pub description: Option<String>,
}

impl Clone for Invoice {
    fn clone(&self) -> (r: Invoice)
        ensures
            r == *self,
    {
        Invoice {
            id: self.id.clone(),
            amount: self.amount,
            description: match &self.description {
                Some(d) => Some(d.clone()),
                None => None,
            },
        }
    }
}

/// Version metadata recorded at initialization.
#[derive(Debug, PartialEq)]
pub struct ContractVersion {
    /// Name of the module that wrote the record.
    pub contract: String,
    /// Version of the module that wrote the record.
    pub version: String,
}

impl Clone for ContractVersion {
    fn clone(&self) -> (r: ContractVersion)
        ensures
            r == *self,
    {
        ContractVersion { contract: self.contract.clone(), version: self.version.clone() }
    }
}

/// No two invoices of the sequence share an identifier.
pub open spec fn unique_ids(s: Seq<Invoice>) -> bool {
    forall|i: int, j: int| 0 <= i < j < s.len() ==> s[i].id@ != s[j].id@
}

/// Some invoice of the sequence has the identifier.
pub open spec fn has_id(s: Seq<Invoice>, id: Seq<char>) -> bool {
    exists|i: int| 0 <= i < s.len() && s[i].id@ == id
}

/// Index of the invoice with the identifier, meaningful when `has_id` holds.
pub open spec fn id_index(s: Seq<Invoice>, id: Seq<char>) -> int {
    choose|i: int| 0 <= i < s.len() && s[i].id@ == id
}

/// The invoice with the identifier, meaningful when `has_id` holds.
pub open spec fn at_id(s: Seq<Invoice>, id: Seq<char>) -> Invoice {
    s[id_index(s, id)]
}

/// With unique identifiers, an index holding `id` is the index `id_index`
/// names, so `at_id` returns exactly the invoice found there.
pub proof fn lemma_at_id(s: Seq<Invoice>, id: Seq<char>, i: int)
    requires
        unique_ids(s),
        0 <= i < s.len(),
        s[i].id@ == id,
    ensures
        has_id(s, id),
        id_index(s, id) == i,
        at_id(s, id) == s[i],
{
    assert(has_id(s, id));
    let j = id_index(s, id);
    assert(0 <= j < s.len() && s[j].id@ == id);
    if j != i {
        assert(false);
    }
}

/// The two storage regions the module reads and writes, plus the version
/// record: a typed model of the host's key-value store.
pub struct Store {
    config: Option<State>,
    version: Option<ContractVersion>,
    invoices: Vec<Invoice>,
}

impl Store {
    /// The configuration record, if one was saved.
    pub closed spec fn spec_config(self) -> Option<State> {
        self.config
    }

    /// The version record, if one was saved.
    pub closed spec fn spec_version(self) -> Option<ContractVersion> {
        self.version
    }

    /// The invoice collection, in insertion order.
    pub closed spec fn spec_invoices(self) -> Seq<Invoice> {
        self.invoices@
    }

    /// Store invariant: invoice identifiers are unique at all times.
    pub open spec fn wf(self) -> bool {
        unique_ids(self.spec_invoices())
    }

    /// An invoice with this identifier is present.
    pub open spec fn spec_has_invoice(self, id: Seq<char>) -> bool {
        has_id(self.spec_invoices(), id)
    }

    /// The invoice with this identifier, meaningful when present.
    pub open spec fn spec_invoice(self, id: Seq<char>) -> Invoice {
        at_id(self.spec_invoices(), id)
    }

    /// An empty store: no configuration, no version, no invoices.
    pub fn new() -> (s: Store)
        ensures
            s.wf(),
            s.spec_config() is None,
            s.spec_version() is None,
            s.spec_invoices() == Seq::<Invoice>::empty(),
    {
        let s = Store { config: None, version: None, invoices: Vec::new() };
        proof {
            assert(s.spec_invoices() =~= Seq::<Invoice>::empty());
        }
        s
    }

    /// Writes the configuration record, replacing any previous one.
    pub fn save_config(&mut self, state: State)
        ensures
            final(self).spec_config() == Some(state),
            final(self).spec_version() == old(self).spec_version(),
            final(self).spec_invoices() == old(self).spec_invoices(),
    {
        self.config = Some(state);
    }

    /// Reads the configuration record.
    pub fn load_config(&self) -> (r: Option<&State>)
        ensures
            match r {
                Some(state) => self.spec_config() == Some(*state),
                None => self.spec_config() is None,
            },
    {
        self.config.as_ref()
    }

    /// Writes the version record, replacing any previous one.
    pub fn set_version(&mut self, version: ContractVersion)
        ensures
            final(self).spec_version() == Some(version),
            final(self).spec_config() == old(self).spec_config(),
            final(self).spec_invoices() == old(self).spec_invoices(),
    {
        self.version = Some(version);
    }

    /// Reads the version record.
    pub fn load_version(&self) -> (r: Option<&ContractVersion>)
        ensures
            match r {
                Some(version) => self.spec_version() == Some(*version),
                None => self.spec_version() is None,
            },
    {
        self.version.as_ref()
    }

    /// Reads the invoice with the given identifier, if present.
    pub fn may_load_invoice(&self, id: &String) -> (r: Option<&Invoice>)
        requires
            self.wf(),
        ensures
            match r {
                Some(invoice) => self.spec_has_invoice(id@) && *invoice == self.spec_invoice(
                    id@,
                ),
                None => !self.spec_has_invoice(id@),
            },
    {
        let n = self.invoices.len();
        let mut i: usize = 0;
        while i < n
            invariant
                n == self.spec_invoices().len(),
                0 <= i <= n,
                self.wf(),
                forall|j: int| 0 <= j < i ==> self.spec_invoices()[j].id@ != id@,
            decreases n - i,
        {
            if self.invoices[i].id == *id {
                proof {
                    lemma_at_id(self.spec_invoices(), id@, i as int);
                }
                return Some(&self.invoices[i]);
            }
            i = i + 1;
        }
        None
    }

    /// Saves a fresh invoice. Creation of a duplicate identifier is refused
    /// by the lifecycle logic before this point, so freshness is required.
    pub fn save_invoice(&mut self, invoice: Invoice)
        requires
            old(self).wf(),
            !old(self).spec_has_invoice(invoice.id@),
        ensures
            final(self).wf(),
            final(self).spec_config() == old(self).spec_config(),
            final(self).spec_version() == old(self).spec_version(),
            final(self).spec_invoices() == old(self).spec_invoices().push(invoice),
            final(self).spec_has_invoice(invoice.id@),
            final(self).spec_invoice(invoice.id@) == invoice,
            forall|k: Seq<char>|
                k != invoice.id@ ==> final(self).spec_has_invoice(k) == old(self).spec_has_invoice(k),
            forall|k: Seq<char>|
                k != invoice.id@ && old(self).spec_has_invoice(k) ==> final(self).spec_invoice(k)
                    == old(self).spec_invoice(k),
    {
        let ghost pre = self.spec_invoices();
        let n = self.invoices.len();
        self.invoices.push(invoice);
        proof {
            let post = self.spec_invoices();
            assert(post == pre.push(invoice));
            assert forall|i: int, j: int| 0 <= i < j < post.len() implies post[i].id@
                != post[j].id@ by {
                if j < pre.len() {
                    assert(pre[i].id@ != pre[j].id@);
                } else {
                    assert(post[j] == invoice);
                    assert(pre[i].id@ != invoice.id@) by {
                        if pre[i].id@ == invoice.id@ {
                            assert(has_id(pre, invoice.id@));
                        }
                    }
                }
            }
            lemma_at_id(post, invoice.id@, n as int);
            assert forall|k: Seq<char>| k != invoice.id@ implies self.spec_has_invoice(k)
                == has_id(pre, k) by {
                if has_id(pre, k) {
                    let w = choose|i: int| 0 <= i < pre.len() && pre[i].id@ == k;
                    assert(post[w].id@ == k);
                }
                if has_id(post, k) {
                    let w = choose|i: int| 0 <= i < post.len() && post[i].id@ == k;
                    assert(w < pre.len());
                    assert(pre[w].id@ == k);
                }
            }
            assert forall|k: Seq<char>| k != invoice.id@ && has_id(pre, k) implies at_id(
                post,
                k,
            ) == at_id(pre, k) by {
                let w = id_index(pre, k);
                assert(0 <= w < pre.len() && pre[w].id@ == k);
                assert(post[w].id@ == k);
                lemma_at_id(post, k, w);
            }
        }
    }

    /// Removes the invoice with the given identifier, if present. All other
    /// invoices, the configuration and the version record are untouched.
    pub fn remove_invoice(&mut self, id: &String)
        requires
            old(self).wf(),
        ensures
            final(self).wf(),
            final(self).spec_config() == old(self).spec_config(),
            final(self).spec_version() == old(self).spec_version(),
            !final(self).spec_has_invoice(id@),
            forall|k: Seq<char>|
                k != id@ ==> final(self).spec_has_invoice(k) == old(self).spec_has_invoice(k),
            forall|k: Seq<char>|
                k != id@ && old(self).spec_has_invoice(k) ==> final(self).spec_invoice(k) == old(
                    self).spec_invoice(k),
            !old(self).spec_has_invoice(id@) ==> *final(self) == *old(self),
    {
        let n = self.invoices.len();
        let mut i: usize = 0;
        while i < n
            invariant
                n == self.spec_invoices().len(),
                0 <= i <= n,
                self.wf(),
                *self == *old(self),
                forall|j: int| 0 <= j < i ==> self.spec_invoices()[j].id@ != id@,
            decreases n - i,
        {
            if self.invoices[i].id == *id {
                let ghost pre = self.spec_invoices();
                self.invoices.remove(i);
                proof {
                    let post = self.spec_invoices();
                    assert(post == pre.remove(i as int));
                    assert(post.len() == pre.len() - 1);
                    assert forall|j: int| 0 <= j < post.len() implies post[j] == (if j < i {
                        pre[j]
                    } else {
                        pre[j + 1]
                    }) by {}
                    assert forall|a: int, b: int| 0 <= a < b < post.len() implies post[a].id@
                        != post[b].id@ by {}
                    assert(!has_id(post, id@)) by {
                        if has_id(post, id@) {
                            let w = choose|j: int|
                                0 <= j < post.len() && post[j].id@ == id@;
                            if w < i {
                                assert(pre[w].id@ == id@);
                            } else {
                                assert(pre[w + 1].id@ == id@);
                                assert(pre[i as int].id@ == id@);
                            }
                        }
                    }
                    assert forall|k: Seq<char>| k != id@ implies has_id(post, k) == has_id(
                        pre,
                        k,
                    ) by {
                        if has_id(pre, k) {
                            let w = choose|j: int| 0 <= j < pre.len() && pre[j].id@ == k;
                            if w < i {
                                assert(post[w].id@ == k);
                            } else {
                                assert(w != i);
                                assert(post[w - 1].id@ == k);
                            }
                        }
                        if has_id(post, k) {
                            let w = choose|j: int| 0 <= j < post.len() && post[j].id@ == k;
                            if w < i {
                                assert(pre[w].id@ == k);
                            } else {
                                assert(pre[w + 1].id@ == k);
                            }
                        }
                    }
                    assert forall|k: Seq<char>| k != id@ && has_id(pre, k) implies at_id(
                        post,
                        k,
                    ) == at_id(pre, k) by {
                        let w = id_index(pre, k);
                        assert(0 <= w < pre.len() && pre[w].id@ == k);
                        if w < i {
                            assert(post[w].id@ == k);
                            lemma_at_id(post, k, w);
                        } else {
                            assert(w != i);
                            assert(post[w - 1].id@ == k);
                            lemma_at_id(post, k, w - 1);
                        }
                    }
                }
                return ;
            }
            i = i + 1;
        }
    }
}

} // verus!
