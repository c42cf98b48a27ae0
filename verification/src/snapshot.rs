use crate::error::ErrorKind;
use crate::error::SnapshotError;
use vstd::prelude::*;
use vstd::string::StringExecFns;

verus! {

/// One entry of a snapshot: an address identifier and the balance it held at
/// snapshot time, in atomic units of the chain's coin.
#[derive(Debug, Clone)]
pub struct Address {
    pub addr: String,
    pub amount: u64,
}

/// The mathematical value of an [`Address`].
#[verifier::ext_equal]
pub struct AddressView {
    pub addr: Seq<char>,
    pub amount: u64,
}

impl View for Address {
    type V = AddressView;

    open spec fn view(&self) -> AddressView {
        AddressView { addr: self.addr@, amount: self.amount }
    }
}

/// The values of a sequence of addresses, in the same order.
pub open spec fn addrs_view(s: Seq<Address>) -> Seq<AddressView> {
    s.map_values(|a: Address| a@)
}

/// The values of a sequence of owned strings, in the same order.
pub open spec fn strings_view(s: Seq<String>) -> Seq<Seq<char>> {
    s.map_values(|x: String| x@)
}

/// A finalized, point-in-time record of a chain's address balances: the chain
/// label, the addresses that survived filtering in provider order, and the
/// aggregate total the provider reported before any filtering.
#[derive(Debug, Clone)]
pub struct Snapshot {
    pub chain: String,
    pub addresses: Vec<Address>,
    pub amount_in_snapshot: u64,
}

/// The mathematical value of a [`Snapshot`].
#[verifier::ext_equal]
pub struct SnapshotView {
    pub chain: Seq<char>,
    pub addresses: Seq<AddressView>,
    pub amount_in_snapshot: u64,
}

impl View for Snapshot {
    type V = SnapshotView;

    open spec fn view(&self) -> SnapshotView {
        SnapshotView {
            chain: self.chain@,
            addresses: addrs_view(self.addresses@),
            amount_in_snapshot: self.amount_in_snapshot,
        }
    }
}

/// Whether `addr` is named by the configured exclusion set. With no set
/// configured, nothing is excluded.
pub open spec fn excludes(ex: Option<Seq<Seq<char>>>, addr: Seq<char>) -> bool {
    match ex {
        Some(list) => list.contains(addr),
        None => false,
    }
}

/// Whether one raw entry survives filtering: its balance meets the threshold
/// (non-strict, so a balance equal to the threshold is kept) and its
/// identifier is not excluded.
pub open spec fn retained(a: AddressView, threshold: u64, ex: Option<Seq<Seq<char>>>) -> bool {
    a.amount >= threshold && !excludes(ex, a.addr)
}

/// The filtered snapshot contents: exactly the raw entries that pass both
/// the threshold and the exclusion filter, kept in provider order.
pub open spec fn snapshot_filter(
    raw: Seq<AddressView>,
    threshold: u64,
    ex: Option<Seq<Seq<char>>>,
) -> Seq<AddressView> {
    raw.filter(|a: AddressView| retained(a, threshold, ex))
}

/// The configuration for one snapshot finalization: the chain to snapshot,
/// the two filters, an optional cap on how many addresses the provider is
/// asked for, and an optional export location. Assembled field by field
/// through the configuration calls, then read once by [`SnapshotBuilder::take`].
#[derive(Debug, Clone)]
pub struct SnapshotBuilder {
    pub chain: String,
    pub threshold: u64,
    pub number_of_addresses: Option<u32>,
    pub excluded_addresses: Option<Vec<String>>,
    pub csv_location: Option<String>,
}

impl Snapshot {
    /// A builder holding the default configuration.
    pub fn builder() -> (r: SnapshotBuilder)
        ensures
            r.chain@ == "KMD"@,
            r.threshold == 0,
            r.number_of_addresses is None,
            r.excluded_addresses is None,
            r.csv_location is None,
    {
        SnapshotBuilder::default()
    }
}

impl Default for SnapshotBuilder {
    /// The default configuration: the KMD chain, a zero threshold (so no
    /// balance is filtered out), no cap, no exclusions, no export.
    fn default() -> (r: Self)
        ensures
            r.chain@ == "KMD"@,
            r.threshold == 0,
            r.number_of_addresses is None,
            r.excluded_addresses is None,
            r.csv_location is None,
    {
        SnapshotBuilder {
            chain: "KMD".to_owned(),
            threshold: 0,
            number_of_addresses: None,
            excluded_addresses: None,
            csv_location: None,
        }
    }
}

impl SnapshotBuilder {
    /// The exclusion set as a mathematical value, if one is configured.
    pub open spec fn excluded_view(&self) -> Option<Seq<Seq<char>>> {
        match self.excluded_addresses {
            Some(v) => Some(strings_view(v@)),
            None => None,
        }
    }

    /// The export location as a mathematical value, if one is configured.
    pub open spec fn csv_location_view(&self) -> Option<Seq<char>> {
        match self.csv_location {
            Some(p) => Some(p@),
            None => None,
        }
    }

    /// Sets the chain to snapshot. The identifier is not validated here;
    /// whether it names a real chain is the provider's concern.
    pub fn on_chain(self, chain: &str) -> (r: Self)
        ensures
            r.chain@ == chain@,
            r.threshold == self.threshold,
            r.number_of_addresses == self.number_of_addresses,
            r.excluded_addresses == self.excluded_addresses,
            r.csv_location == self.csv_location,
    {
        SnapshotBuilder {
            chain: chain.to_owned(),
            threshold: self.threshold,
            number_of_addresses: self.number_of_addresses,
            excluded_addresses: self.excluded_addresses,
            csv_location: self.csv_location,
        }
    }

    /// Sets the minimum balance, in atomic units, an address must hold to be
    /// kept. Zero keeps every address.
    pub fn using_threshold(self, threshold: u64) -> (r: Self)
        ensures
            r.chain == self.chain,
            r.threshold == threshold,
            r.number_of_addresses == self.number_of_addresses,
            r.excluded_addresses == self.excluded_addresses,
            r.csv_location == self.csv_location,
    {
        SnapshotBuilder {
            chain: self.chain,
            threshold,
            number_of_addresses: self.number_of_addresses,
            excluded_addresses: self.excluded_addresses,
            csv_location: self.csv_location,
        }
    }

    /// Caps how many top addresses the provider is asked for.
    pub fn include_top_n_addresses(self, n: u32) -> (r: Self)
        ensures
            r.chain == self.chain,
            r.threshold == self.threshold,
            r.number_of_addresses == Some(n),
            r.excluded_addresses == self.excluded_addresses,
            r.csv_location == self.csv_location,
    {
        SnapshotBuilder {
            chain: self.chain,
            threshold: self.threshold,
            number_of_addresses: Some(n),
            excluded_addresses: self.excluded_addresses,
            csv_location: self.csv_location,
        }
    }

    /// Sets the addresses to drop regardless of balance, replacing any
    /// previously configured exclusion set.
    pub fn exclude_addresses(self, addresses: Vec<String>) -> (r: Self)
        ensures
            r.chain == self.chain,
            r.threshold == self.threshold,
            r.number_of_addresses == self.number_of_addresses,
            r.excluded_addresses == Some(addresses),
            r.csv_location == self.csv_location,
    {
        SnapshotBuilder {
            chain: self.chain,
            threshold: self.threshold,
            number_of_addresses: self.number_of_addresses,
            excluded_addresses: Some(addresses),
            csv_location: self.csv_location,
        }
    }

    /// Sets the file location the filtered result is exported to.
    pub fn store_in_csv(self, path: &str) -> (r: Self)
        ensures
            r.chain == self.chain,
            r.threshold == self.threshold,
            r.number_of_addresses == self.number_of_addresses,
            r.excluded_addresses == self.excluded_addresses,
            r.csv_location_view() == Some(path@),
    {
        SnapshotBuilder {
            chain: self.chain,
            threshold: self.threshold,
            number_of_addresses: self.number_of_addresses,
            excluded_addresses: self.excluded_addresses,
            csv_location: Some(path.to_owned()),
        }
    }

    /// Finalizes the snapshot from what the provider returned: the raw
    /// address list and the provider's aggregate total, both in atomic units.
    ///
    /// Fails exactly when the provider returned no addresses. Otherwise the
    /// result carries the configured chain label, the raw entries that pass
    /// both filters in provider order, and the provider's total unchanged —
    /// the total is never recomputed from the filtered list.
    pub fn take(&self, raw_addresses: Vec<Address>, total: u64) -> (r: Result<
        Snapshot,
        SnapshotError,
    >)
        ensures
            match r {
                Ok(s) => raw_addresses@.len() > 0 && s@.chain == self.chain@
                    && s@.amount_in_snapshot == total && s@.addresses == snapshot_filter(
                    addrs_view(raw_addresses@),
                    self.threshold,
                    self.excluded_view(),
                ),
                Err(e) => raw_addresses@.len() == 0 && e.kind matches ErrorKind::EmptySnapshot,
            },
    {
        if raw_addresses.len() == 0 {
            return Err(SnapshotError { kind: ErrorKind::EmptySnapshot });
        }
        let ghost raw = addrs_view(raw_addresses@);
        let mut kept: Vec<Address> = Vec::new();
        let mut i: usize = 0;
        while i < raw_addresses.len()
            invariant
                i <= raw_addresses@.len(),
                raw == addrs_view(raw_addresses@),
                addrs_view(kept@) == snapshot_filter(
                    raw.take(i as int),
                    self.threshold,
                    self.excluded_view(),
                ),
            decreases raw_addresses@.len() - i,
        {
            let a = &raw_addresses[i];
            let keep: bool = if a.amount >= self.threshold {
                match &self.excluded_addresses {
                    Some(list) => !contains_string(list, &a.addr),
                    None => true,
                }
            } else {
                false
            };
            proof {
                assert(raw[i as int] == a@);
                assert(keep == retained(a@, self.threshold, self.excluded_view()));
                assert(raw.take(i + 1 as int) =~= raw.take(i as int).push(a@));
                lemma_snapshot_filter_push(
                    raw.take(i as int),
                    a@,
                    self.threshold,
                    self.excluded_view(),
                );
            }
            if keep {
                let copy = Address { addr: a.addr.clone(), amount: a.amount };
                kept.push(copy);
                proof {
                    assert(addrs_view(kept@) =~= snapshot_filter(
                        raw.take(i + 1 as int),
                        self.threshold,
                        self.excluded_view(),
                    ));
                }
            } else {
                proof {
                    assert(addrs_view(kept@) =~= snapshot_filter(
                        raw.take(i + 1 as int),
                        self.threshold,
                        self.excluded_view(),
                    ));
                }
            }
            i += 1;
        }
        proof {
            assert(raw.take(raw.len() as int) =~= raw);
        }
        Ok(
            Snapshot {
                chain: self.chain.clone(),
                addresses: kept,
                amount_in_snapshot: total,
            },
        )
    }
}

/// Whether `target` occurs in `list`, compared as exact strings.
fn contains_string(list: &Vec<String>, target: &String) -> (r: bool)
    ensures
        r == strings_view(list@).contains(target@),
{
    let mut i: usize = 0;
    while i < list.len()
        invariant
            i <= list@.len(),
            forall|j: int| 0 <= j < i ==> list@[j]@ != target@,
        decreases list@.len() - i,
    {
        if list[i].eq(target) {
            proof {
                assert(strings_view(list@)[i as int] == target@);
            }
            return true;
        }
        i += 1;
    }
    proof {
        assert forall|j: int| 0 <= j < strings_view(list@).len() implies strings_view(list@)[j]
            != target@ by {
            assert(strings_view(list@)[j] == list@[j]@);
        }
    }
    false
}

/// The decimal digit character for `d`.
pub open spec fn dec_digit_char(d: nat) -> char {
    if d == 0 {
        '0'
    } else if d == 1 {
        '1'
    } else if d == 2 {
        '2'
    } else if d == 3 {
        '3'
    } else if d == 4 {
        '4'
    } else if d == 5 {
        '5'
    } else if d == 6 {
        '6'
    } else if d == 7 {
        '7'
    } else if d == 8 {
        '8'
    } else {
        '9'
    }
}

/// The decimal digit string of `n`, most significant digit first, with no
/// sign, separators or leading zeros (a lone zero for zero itself).
pub open spec fn dec_str(n: nat) -> Seq<char>
    decreases n,
{
    if n < 10 {
        seq![dec_digit_char(n)]
    } else {
        dec_str(n / 10).push(dec_digit_char(n % 10))
    }
}

/// The one-character string for the decimal digit `d`.
fn digit_str(d: u64) -> (r: &'static str)
    requires
        d < 10,
    ensures
        r@ == seq![dec_digit_char(d as nat)],
{
    proof {
        reveal_strlit("0");
        reveal_strlit("1");
        reveal_strlit("2");
        reveal_strlit("3");
        reveal_strlit("4");
        reveal_strlit("5");
        reveal_strlit("6");
        reveal_strlit("7");
        reveal_strlit("8");
        reveal_strlit("9");
    }
    let r: &'static str = if d == 0 {
        "0"
    } else if d == 1 {
        "1"
    } else if d == 2 {
        "2"
    } else if d == 3 {
        "3"
    } else if d == 4 {
        "4"
    } else if d == 5 {
        "5"
    } else if d == 6 {
        "6"
    } else if d == 7 {
        "7"
    } else if d == 8 {
        "8"
    } else {
        "9"
    };
    proof {
        assert(r@ =~= seq![dec_digit_char(d as nat)]);
    }
    r
}

/// Renders a balance as its decimal string: the exact digits of its value in
/// atomic units.
pub fn amount_string(v: u64) -> (r: String)
    ensures
        r@ == dec_str(v as nat),
    decreases v,
{
    if v < 10 {
        digit_str(v).to_owned()
    } else {
        let mut s = amount_string(v / 10);
        s.append(digit_str(v % 10));
        proof {
            assert(dec_str((v / 10) as nat) + seq![dec_digit_char((v % 10) as nat)] =~= dec_str(
                (v / 10) as nat,
            ).push(dec_digit_char((v % 10) as nat)));
        }
        s
    }
}

/// The rows an export of `snapshot` writes, in order: first the fixed
/// `address`, `amount` header, then one row per address in snapshot order,
/// each holding the identifier and the balance's decimal string.
pub fn csv_rows(snapshot: &Snapshot) -> (rows: Vec<(String, String)>)
    ensures
        rows@.len() == snapshot@.addresses.len() + 1,
        rows@[0].0@ == "address"@,
        rows@[0].1@ == "amount"@,
        forall|i: int|
            0 <= i < snapshot@.addresses.len() ==> rows@[i + 1].0@ == (
            #[trigger] snapshot@.addresses[i]).addr && rows@[i + 1].1@ == dec_str(
                snapshot@.addresses[i].amount as nat,
            ),
{
    let mut rows: Vec<(String, String)> = Vec::new();
    rows.push(("address".to_owned(), "amount".to_owned()));
    let mut i: usize = 0;
    while i < snapshot.addresses.len()
        invariant
            i <= snapshot.addresses@.len(),
            rows@.len() == i + 1,
            rows@[0].0@ == "address"@,
            rows@[0].1@ == "amount"@,
            forall|j: int|
                0 <= j < i ==> rows@[j + 1].0@ == (#[trigger] snapshot@.addresses[j]).addr
                    && rows@[j + 1].1@ == dec_str(snapshot@.addresses[j].amount as nat),
        decreases snapshot.addresses@.len() - i,
    {
        let a = &snapshot.addresses[i];
        rows.push((a.addr.clone(), amount_string(a.amount)));
        i += 1;
    }
    rows
}

/// Applies the export sink's outcome to an otherwise finished snapshot: a
/// sink failure discards the snapshot and fails the whole finalization, so a
/// caller never receives a snapshot whose requested export did not happen.
pub fn apply_export_outcome(snapshot: Snapshot, outcome: Result<(), String>) -> (r: Result<
    Snapshot,
    SnapshotError,
>)
    ensures
        match outcome {
            Ok(_) => r == Result::<Snapshot, SnapshotError>::Ok(snapshot),
            Err(m) => r == Result::<Snapshot, SnapshotError>::Err(
                SnapshotError { kind: ErrorKind::CsvError(m) },
            ),
        },
{
    match outcome {
        Ok(_) => Ok(snapshot),
        Err(m) => Err(SnapshotError { kind: ErrorKind::CsvError(m) }),
    }
}

/// The filtered part of a list grows by one exactly when the pushed entry is
/// itself retained, and by nothing otherwise.
proof fn lemma_snapshot_filter_push(
    s: Seq<AddressView>,
    x: AddressView,
    threshold: u64,
    ex: Option<Seq<Seq<char>>>,
)
    ensures
        snapshot_filter(s.push(x), threshold, ex) == if retained(x, threshold, ex) {
            snapshot_filter(s, threshold, ex).push(x)
        } else {
            snapshot_filter(s, threshold, ex)
        },
{
    reveal(Seq::filter);
    assert(s.push(x).drop_last() =~= s);
    assert(s.push(x).last() == x);
}

/// Filtering an empty list yields an empty list.
proof fn lemma_snapshot_filter_empty(threshold: u64, ex: Option<Seq<Seq<char>>>)
    ensures
        snapshot_filter(Seq::<AddressView>::empty(), threshold, ex) == Seq::<AddressView>::empty(),
{
    reveal(Seq::filter);
}

/// The combined filter retains exactly the raw entries that pass both the
/// threshold and the exclusion filter: every kept entry passes both, and
/// every raw entry that passes both is kept.
pub proof fn lemma_filter_retains_exactly(
    raw: Seq<AddressView>,
    threshold: u64,
    ex: Option<Seq<Seq<char>>>,
)
    ensures
        snapshot_filter(raw, threshold, ex).len() <= raw.len(),
        forall|i: int|
            0 <= i < snapshot_filter(raw, threshold, ex).len() ==> retained(
                #[trigger] snapshot_filter(raw, threshold, ex)[i],
                threshold,
                ex,
            ),
        forall|i: int|
            0 <= i < raw.len() && retained(#[trigger] raw[i], threshold, ex) ==> snapshot_filter(
                raw,
                threshold,
                ex,
            ).contains(raw[i]),
{
    broadcast use vstd::seq_lib::group_filter_ensures;

}

/// A zero threshold with no exclusions keeps the whole raw list, unchanged
/// and in its original order.
pub proof fn lemma_no_filtering_retains_all(raw: Seq<AddressView>)
    ensures
        snapshot_filter(raw, 0, None) == raw,
    decreases raw.len(),
{
    if raw.len() == 0 {
        assert(raw =~= Seq::<AddressView>::empty());
        lemma_snapshot_filter_empty(0, None);
    } else {
        lemma_no_filtering_retains_all(raw.drop_last());
        lemma_snapshot_filter_push(raw.drop_last(), raw.last(), 0, None);
        assert(raw.drop_last().push(raw.last()) =~= raw);
    }
}

/// No excluded identifier survives filtering, whatever the threshold is.
pub proof fn lemma_excluded_are_absent(
    raw: Seq<AddressView>,
    threshold: u64,
    ex: Option<Seq<Seq<char>>>,
)
    ensures
        forall|i: int|
            0 <= i < snapshot_filter(raw, threshold, ex).len() ==> !excludes(
                ex,
                (#[trigger] snapshot_filter(raw, threshold, ex)[i]).addr,
            ),
{
    lemma_filter_retains_exactly(raw, threshold, ex);
}

/// The threshold filter and the exclusion filter are independent: applying
/// them one after the other, in either order, gives the combined filter.
pub proof fn lemma_filters_commute(
    raw: Seq<AddressView>,
    threshold: u64,
    ex: Option<Seq<Seq<char>>>,
)
    ensures
        snapshot_filter(snapshot_filter(raw, threshold, None), 0, ex) == snapshot_filter(
            raw,
            threshold,
            ex,
        ),
        snapshot_filter(snapshot_filter(raw, 0, ex), threshold, None) == snapshot_filter(
            raw,
            threshold,
            ex,
        ),
    decreases raw.len(),
{
    if raw.len() == 0 {
        assert(raw =~= Seq::<AddressView>::empty());
        lemma_snapshot_filter_empty(threshold, None);
        lemma_snapshot_filter_empty(0, ex);
        lemma_snapshot_filter_empty(threshold, ex);
        lemma_snapshot_filter_empty(0, None);
    } else {
        let prefix = raw.drop_last();
        let x = raw.last();
        lemma_filters_commute(prefix, threshold, ex);
        assert(prefix.push(x) =~= raw);
        lemma_snapshot_filter_push(prefix, x, threshold, None);
        lemma_snapshot_filter_push(prefix, x, 0, ex);
        lemma_snapshot_filter_push(prefix, x, threshold, ex);
        lemma_snapshot_filter_push(snapshot_filter(prefix, threshold, None), x, 0, ex);
        lemma_snapshot_filter_push(snapshot_filter(prefix, 0, ex), x, threshold, None);
    }
}

} // verus!
