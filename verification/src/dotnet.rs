//! Namespace inference from the .NET metadata of a managed assembly.
use vstd::prelude::*;

use dotnetdll::prelude::{ReadOptions, Resolution};

use crate::bounds::{
    dotnet_manifest_rows, dotnet_metadata_layout, dotnet_rva_range, image_in_bounds, image_within_bounds, low_bits,
    present_tables, resources_fit, row_counts_fit, row_total, tables_stream_name, streams_fit, tables_fit, first_named,
};
use crate::error::Error;
use crate::names::{lookup, name_lt, position_of, sorted_keys, NameMap};
use crate::seqs::lemma_filter_take_step;
use crate::text::{owned, str_eq};

verus! {

/// A type definition of the metadata: its name and optional namespace.
#[derive(Debug, Clone, PartialEq, Eq)]
pub struct TypeDef {
    pub name: String,
    pub namespace: Option<String>,
}

/// Name and namespace of a type definition.
pub type TypeDefView = (Seq<char>, Option<Seq<char>>);

/// What `dotnetdll` reads from an assembly's bytes: the name and namespace of
/// every type definition, in metadata order, or the parse error's message.
pub uninterp spec fn dotnet_type_definitions(assembly: Seq<u8>) -> Result<Seq<TypeDefView>, Seq<char>>;

/// Names and namespaces of type definitions.
pub open spec fn defs_view(defs: Seq<TypeDef>) -> Seq<TypeDefView> {
    defs.map_values(
        |d: TypeDef|
            (
                d.name@,
                match d.namespace {
                    Some(n) => Some(n@),
                    None => None,
                },
            ),
    )
}

/// Reads the type definitions of an assembly with `dotnetdll`.
///
/// Trusted: `Resolution::parse` with default read options; its result is a
/// function of the bytes, named by [`dotnet_type_definitions`]. Each type
/// definition is converted to its name and namespace.
///
/// The reader slices a metadata stream by its header's size without a bounds
/// check, adds a stream's offset to the metadata RVA in 32 bits, reserves
/// every table's row count before reading the rows, and slices an embedded
/// resource by its length prefix without a bounds check. The `requires`
/// leaves out the images on which one of these would panic or reserve beyond
/// the tables stream's own length ([`image_in_bounds`]).
#[verifier::external_body]
fn read_type_definitions(assembly: &[u8]) -> (r: Result<Vec<TypeDef>, String>)
    requires
        image_in_bounds(assembly@),
    ensures
        match dotnet_type_definitions(assembly@) {
            Ok(defs) => r matches Ok(v) && defs_view(v@) == defs,
            Err(m) => r matches Err(e) && e@ == m,
        },
{
    match Resolution::parse(assembly, ReadOptions::default()) {
        Ok(res) => Ok(
            res.type_definitions.iter().map(
                |t| TypeDef { name: t.name.to_string(), namespace: t.namespace.as_ref().map(|n| n.to_string()) },
            ).collect(),
        ),
        Err(e) => Err(e.to_string()),
    }
}

/// The message for an image whose metadata layout is out of bounds.
pub open spec fn out_of_bounds_message() -> Seq<char> {
    "a metadata stream, table or resource runs past its section"@
}

/// What an assembly's bytes give as type definitions: an out-of-bounds
/// layout is refused, any other image is read by `dotnetdll`.
pub open spec fn assembly_types(assembly: Seq<u8>) -> Result<Seq<TypeDefView>, Seq<char>> {
    if image_in_bounds(assembly) {
        dotnet_type_definitions(assembly)
    } else {
        Err(out_of_bounds_message())
    }
}

/// Reads the type definitions of an assembly whose metadata layout is within
/// bounds; refuses the others.
pub fn read_assembly_types(assembly: &[u8]) -> (r: Result<Vec<TypeDef>, String>)
    ensures
        match assembly_types(assembly@) {
            Ok(defs) => r matches Ok(v) && defs_view(v@) == defs,
            Err(m) => r matches Err(e) && e@ == m,
        },
{
    if image_within_bounds(assembly) {
        read_type_definitions(assembly)
    } else {
        let m = owned("a metadata stream, table or resource runs past its section");
        proof {
            reveal_strlit("a metadata stream, table or resource runs past its section");
        }
        Err(m)
    }
}

/// Number of set bits of a byte, read bit by bit.
pub open spec fn byte_ones(b: nat) -> nat {
    b % 2 + b / 2 % 2 + b / 4 % 2 + b / 8 % 2 + b / 16 % 2 + b / 32 % 2 + b / 64 % 2 + b / 128 % 2
}

/// Sum of the first `k` little-endian 32-bit row counts of a tables stream,
/// which start at byte 24.
pub open spec fn sum_row_counts(s: Seq<u8>, k: nat) -> int
    decreases k,
{
    if k == 0 {
        0
    } else {
        let o = 24 + 4 * (k - 1);
        sum_row_counts(s, (k - 1) as nat) + s[o] + 256 * s[o + 1] + 65536 * s[o + 2] + 16777216 * s[o + 3]
    }
}

proof fn lemma_byte_ones(b: nat)
    ensures
        byte_ones(b) == low_bits(b, 8),
{
    reveal_with_fuel(low_bits, 9);
    vstd::arithmetic::div_mod::lemma_div_denominator(b as int, 2, 2);
    vstd::arithmetic::div_mod::lemma_div_denominator(b as int, 4, 2);
    vstd::arithmetic::div_mod::lemma_div_denominator(b as int, 8, 2);
    vstd::arithmetic::div_mod::lemma_div_denominator(b as int, 16, 2);
    vstd::arithmetic::div_mod::lemma_div_denominator(b as int, 32, 2);
    vstd::arithmetic::div_mod::lemma_div_denominator(b as int, 64, 2);
}

proof fn lemma_sum_row_counts(s: Seq<u8>, k: nat)
    ensures
        sum_row_counts(s, k) == row_total(s, k),
    decreases k,
{
    if k > 0 {
        lemma_sum_row_counts(s, (k - 1) as nat);
    }
}

proof fn lemma_row_counts(s: Seq<u8>)
    ensures
        row_counts_fit(s) == ({
            let k = byte_ones(s[8] as nat) + byte_ones(s[9] as nat) + byte_ones(s[10] as nat) + byte_ones(s[11] as nat)
                + byte_ones(s[12] as nat) + byte_ones(s[13] as nat) + byte_ones(s[14] as nat) + byte_ones(s[15] as nat);
            s.len() >= 24 + 4 * k ==> sum_row_counts(s, k) <= s.len()
        }),
{
    reveal_with_fuel(present_tables, 9);
    lemma_byte_ones(s[8] as nat);
    lemma_byte_ones(s[9] as nat);
    lemma_byte_ones(s[10] as nat);
    lemma_byte_ones(s[11] as nat);
    lemma_byte_ones(s[12] as nat);
    lemma_byte_ones(s[13] as nat);
    lemma_byte_ones(s[14] as nat);
    lemma_byte_ones(s[15] as nat);
    lemma_sum_row_counts(s, present_tables(s, 8));
}

/// The layout of an image's metadata: the metadata root's RVA, the
/// resources' RVA and size, and the stream headers (name, offset, size).
pub type MetadataLayout = (u32, u32, u32, Seq<(Seq<char>, u32, u32)>);

/// Every metadata stream lies inside one section, at an RVA (the metadata
/// root's plus the stream's offset) below 2^32.
pub open spec fn streams_in_sections(image: Seq<u8>, l: MetadataLayout) -> bool {
    forall|i: int|
        0 <= i < l.3.len() ==> l.0 + (#[trigger] l.3[i]).1 < 0x1_0000_0000int && dotnet_rva_range(
            image,
            (l.0 + l.3[i].1) as u32,
            l.3[i].2,
        ) is Some
}

/// The row counts of a tables stream (one little-endian `u32` from byte 24
/// on for each bit set in the 8-byte mask at byte 8), where the stream has
/// room for them, add up to no more than its length.
pub open spec fn rows_within_stream(s: Seq<u8>) -> bool {
    let k = byte_ones(s[8] as nat) + byte_ones(s[9] as nat) + byte_ones(s[10] as nat) + byte_ones(s[11] as nat)
        + byte_ones(s[12] as nat) + byte_ones(s[13] as nat) + byte_ones(s[14] as nat) + byte_ones(s[15] as nat);
    s.len() >= 24 + 4 * k ==> sum_row_counts(s, k) <= s.len()
}

/// The first stream named `#~` holds its row counts.
pub open spec fn first_tables_stream_holds_rows(image: Seq<u8>, l: MetadataLayout) -> bool {
    forall|i: int|
        0 <= i < l.3.len() && (#[trigger] l.3[i]).0 == seq!['#', '~'] && (forall|j: int|
            0 <= j < i ==> l.3[j].0 != seq!['#', '~']) ==> match dotnet_rva_range(
            image,
            (l.0 + l.3[i].1) as u32,
            l.3[i].2,
        ) {
            Some(s) => rows_within_stream(s),
            None => true,
        }
}

/// Every embedded resource (defined visibility, null implementation) whose
/// 4-byte little-endian length prefix lies in the resources directory, at
/// the resource's offset, is followed by that many bytes inside it.
pub open spec fn resources_in_directory(image: Seq<u8>, l: MetadataLayout) -> bool {
    match (dotnet_rva_range(image, l.1, l.2), dotnet_manifest_rows(image)) {
        (Some(d), Some(rows)) => forall|i: int|
            0 <= i < rows.len() && (#[trigger] rows[i]).1 && (rows[i].0 % 8 == 1 || rows[i].0 % 8 == 2) && rows[i].2
                + 4 <= d.len() ==> {
                let o = rows[i].2 as int;
                o + 4 + d[o] + 256 * d[o + 1] + 65536 * d[o + 2] + 16777216 * d[o + 3] <= d.len()
            },
        _ => true,
    }
}

proof fn lemma_streams_part(image: Seq<u8>, l: MetadataLayout)
    requires
        dotnet_metadata_layout(image) == Some(l),
    ensures
        streams_in_sections(image, l) == streams_fit(image),
{
}

proof fn lemma_tables_part(image: Seq<u8>, l: MetadataLayout)
    requires
        dotnet_metadata_layout(image) == Some(l),
    ensures
        first_tables_stream_holds_rows(image, l) == tables_fit(image),
{
    assert(tables_stream_name() =~= seq!['#', '~']);
    assert forall|i: int| 0 <= i < l.3.len() implies (match dotnet_rva_range(
        image,
        (l.0 + (#[trigger] l.3[i]).1) as u32,
        l.3[i].2,
    ) {
        Some(s) => row_counts_fit(s) == rows_within_stream(s),
        None => true,
    }) by {
        match dotnet_rva_range(image, (l.0 + l.3[i].1) as u32, l.3[i].2) {
            Some(s) => lemma_row_counts(s),
            None => {},
        }
    }
    if first_tables_stream_holds_rows(image, l) {
        assert forall|i: int| first_named(l.3, tables_stream_name(), i) implies match dotnet_rva_range(
            image,
            (l.0 + (#[trigger] l.3[i]).1) as u32,
            l.3[i].2,
        ) {
            Some(s) => row_counts_fit(s),
            None => true,
        } by {}
    }
    if tables_fit(image) {
        assert forall|i: int|
            0 <= i < l.3.len() && (#[trigger] l.3[i]).0 == seq!['#', '~'] && (forall|j: int|
                0 <= j < i ==> l.3[j].0 != seq!['#', '~']) implies match dotnet_rva_range(
            image,
            (l.0 + l.3[i].1) as u32,
            l.3[i].2,
        ) {
            Some(s) => rows_within_stream(s),
            None => true,
        } by {
            assert(first_named(l.3, tables_stream_name(), i));
        }
    }
}

proof fn lemma_resources_part(image: Seq<u8>, l: MetadataLayout)
    requires
        dotnet_metadata_layout(image) == Some(l),
    ensures
        resources_in_directory(image, l) == resources_fit(image),
{
}

/// Which images the metadata reader is given: exactly those whose streams
/// lie inside their sections, whose tables stream holds its row counts, and
/// whose embedded resources lie inside the resources directory (each
/// condition stated on the bytes above). Every other image is refused with
/// the bounds message.
pub proof fn lemma_bounds_decide_reading(image: Seq<u8>)
    ensures
        ({
            let ok = match dotnet_metadata_layout(image) {
                None => true,
                Some(l) => streams_in_sections(image, l) && first_tables_stream_holds_rows(image, l)
                    && resources_in_directory(image, l),
            };
            assembly_types(image) == if ok {
                dotnet_type_definitions(image)
            } else {
                Err(out_of_bounds_message())
            }
        }),
{
    match dotnet_metadata_layout(image) {
        None => {},
        Some(l) => {
            lemma_streams_part(image, l);
            lemma_tables_part(image, l);
            lemma_resources_part(image, l);
        },
    }
}

/// Number of type definitions in namespace `k`.
pub open spec fn ns_count(defs: Seq<TypeDefView>, k: Seq<char>) -> nat {
    defs.filter(|d: TypeDefView| d.1 == Some(k)).len()
}

/// The type definitions named `class_name` with a non-empty namespace.
pub open spec fn class_matches(defs: Seq<TypeDefView>, class_name: Seq<char>) -> Seq<TypeDefView> {
    defs.filter(
        |d: TypeDefView| d.0 == class_name && d.1 is Some && d.1.unwrap().len() > 0,
    )
}

/// The namespace of the class when exactly one type definition with that
/// name has a non-empty namespace.
pub open spec fn namespace_for_class_spec(defs: Seq<TypeDefView>, class_name: Seq<char>) -> Option<
    Seq<char>,
> {
    let m = class_matches(defs, class_name);
    if m.len() == 1 {
        m[0].1
    } else {
        None
    }
}

/// Some type definition has a non-empty namespace.
pub open spec fn has_namespace(defs: Seq<TypeDefView>) -> bool {
    exists|i: int| 0 <= i < defs.len() && (#[trigger] defs[i]).1 is Some && defs[i].1.unwrap().len() > 0
}

/// `k` is a most common non-empty namespace; among namespaces as common, it
/// is the last in name order.
pub open spec fn most_common_spec(defs: Seq<TypeDefView>, k: Seq<char>) -> bool {
    &&& k.len() > 0
    &&& ns_count(defs, k) > 0
    &&& forall|k2: Seq<char>|
        k2.len() > 0 && #[trigger] ns_count(defs, k2) > 0 ==> ns_count(defs, k2) < ns_count(defs, k) || (
        ns_count(defs, k2) == ns_count(defs, k) && (k2 == k || name_lt(k2, k)))
}

/// The namespace inferred for a loader class: the class's own namespace when
/// it is unambiguous, else the most common non-empty namespace.
pub open spec fn inferred_namespace_ok(defs: Seq<TypeDefView>, class_name: Seq<char>, r: Option<
    Seq<char>,
>) -> bool {
    match namespace_for_class_spec(defs, class_name) {
        Some(n) => r == Some(n),
        None => match r {
            None => !has_namespace(defs),
            Some(k) => most_common_spec(defs, k),
        },
    }
}

/// The optional string's characters.
pub open spec fn opt_chars(o: Option<String>) -> Option<Seq<char>> {
    match o {
        Some(s) => Some(s@),
        None => None,
    }
}

/// The namespace of the class when exactly one type definition with that
/// name has a non-empty namespace.
pub fn namespace_for_class(defs: &Vec<TypeDef>, class_name: &str) -> (r: Option<String>)
    ensures
        opt_chars(r) == namespace_for_class_spec(defs_view(defs@), class_name@),
{
    let ghost dv = defs_view(defs@);
    let ghost pred = |d: TypeDefView| d.0 == class_name@ && d.1 is Some && d.1.unwrap().len() > 0;
    let mut found: Option<String> = None;
    let mut count: usize = 0;
    let mut i: usize = 0;
    while i < defs.len()
        invariant
            i <= defs.len(),
            dv == defs_view(defs@),
            pred == (|d: TypeDefView| d.0 == class_name@ && d.1 is Some && d.1.unwrap().len() > 0),
            count == dv.take(i as int).filter(pred).len(),
            count <= i,
            count >= 1 ==> opt_chars(found) == dv.take(i as int).filter(pred)[0].1,
        decreases defs.len() - i,
    {
        proof {
            lemma_filter_take_step(dv, pred, i as int);
        }
        assert(dv[i as int] == (defs@[i as int].name@, opt_chars(defs@[i as int].namespace)));
        if str_eq(defs[i].name.as_str(), class_name) {
            match &defs[i].namespace {
                Some(n) => {
                    if !n.as_str().is_empty() {
                        if count == 0 {
                            found = Some(n.clone());
                        }
                        count = count + 1;
                    }
                },
                None => {},
            }
        }
        i = i + 1;
    }
    assert(dv.take(defs.len() as int) =~= dv);
    if count == 1 {
        found
    } else {
        None
    }
}

/// Adds one to the count of a non-empty namespace.
pub fn add_namespace_count(counts: &mut NameMap<usize>, namespace: Option<&str>)
    requires
        namespace matches Some(n) ==> lookup(old(counts)@, n@) != Some(usize::MAX),
    ensures
        forall|k: Seq<char>| #[trigger]
            lookup(final(counts)@, k) == if namespace matches Some(n) && n@.len() > 0 && k == n@ {
                Some(
                    (match lookup(old(counts)@, k) {
                        Some(c) => c + 1,
                        None => 1,
                    }) as usize,
                )
            } else {
                lookup(old(counts)@, k)
            },
{
    if let Some(n) = namespace {
        if !n.is_empty() {
            let ghost before = counts@;
            let c: usize = match counts.get(n) {
                Some(c) => *c,
                None => 0,
            };
            let name = owned(n);
            counts.insert(name, c + 1);
            proof {
                assert forall|k: Seq<char>| #[trigger]
                    lookup(counts@, k) == if k == n@ {
                        Some((c + 1) as usize)
                    } else {
                        lookup(before, k)
                    } by {
                    crate::names::lemma_sorted_is_unique(before);
                    crate::names::lemma_sorted_is_unique(counts@);
                    crate::names::lemma_insert_lookup(before, counts@, name, (c + 1) as usize, k);
                }
            }
        }
    }
}


/// The count stored for namespace `k`: present for the non-empty namespaces
/// that some type definition has.
pub open spec fn count_entry(defs: Seq<TypeDefView>, k: Seq<char>) -> Option<usize> {
    if k.len() > 0 && ns_count(defs, k) > 0 {
        Some(ns_count(defs, k) as usize)
    } else {
        None
    }
}

/// Counts the type definitions of every non-empty namespace.
pub fn namespace_counts(defs: &Vec<TypeDef>) -> (r: NameMap<usize>)
    ensures
        forall|k: Seq<char>| #[trigger] lookup(r@, k) == count_entry(defs_view(defs@), k),
        sorted_keys(r@),
{
    let ghost dv = defs_view(defs@);
    let mut counts: NameMap<usize> = NameMap::new();
    let mut i: usize = 0;
    while i < defs.len()
        invariant
            i <= defs.len(),
            dv == defs_view(defs@),
            forall|k: Seq<char>| #[trigger] lookup(counts@, k) == count_entry(dv.take(i as int), k),
            forall|k: Seq<char>| #[trigger] ns_count(dv.take(i as int), k) <= i,
        decreases defs.len() - i,
    {
        assert(dv[i as int] == (defs@[i as int].name@, opt_chars(defs@[i as int].namespace)));
        proof {
            assert forall|k: Seq<char>| #[trigger] ns_count(dv.take(i + 1), k) == ns_count(
                dv.take(i as int),
                k,
            ) + (if dv[i as int].1 == Some(k) {
                1int
            } else {
                0int
            }) by {
                lemma_filter_take_step(dv, |d: TypeDefView| d.1 == Some(k), i as int);
            }
        }
        match &defs[i].namespace {
            Some(n) => {
                assert(ns_count(dv.take(i as int), n@) <= i);
                add_namespace_count(&mut counts, Some(n.as_str()));
            },
            None => {
                add_namespace_count(&mut counts, None);
            },
        }
        i = i + 1;
    }
    assert(dv.take(defs.len() as int) =~= dv);
    let _ = counts.len();
    counts
}

/// The index of the last entry with the largest count.
pub open spec fn is_last_max(entries: Seq<(String, usize)>, j: int) -> bool {
    &&& 0 <= j < entries.len()
    &&& forall|i: int|
        0 <= i < entries.len() ==> (#[trigger] entries[i]).1 <= entries[j].1 && (entries[i].1
            == entries[j].1 ==> i <= j)
}

/// The name with the largest count; among equal counts, the last in name order.
pub fn most_common_namespace(counts: NameMap<usize>) -> (r: Option<String>)
    ensures
        r is None <==> counts@.len() == 0,
        r matches Some(k) ==> exists|j: int| is_last_max(counts@, j) && counts@[j].0 == k,
{
    let ghost cv = counts@;
    let entries = counts.into_entries();
    if entries.len() == 0 {
        return None;
    }
    let mut best: usize = 0;
    let mut i: usize = 1;
    while i < entries.len()
        invariant
            1 <= i <= entries.len(),
            best < i,
            forall|a: int|
                0 <= a < i ==> (#[trigger] entries@[a]).1 <= entries@[best as int].1 && (
                entries@[a].1 == entries@[best as int].1 ==> a <= best),
        decreases entries.len() - i,
    {
        if entries[i].1 >= entries[best].1 {
            best = i;
        }
        i = i + 1;
    }
    assert(is_last_max(cv, best as int));
    Some(entries[best].0.clone())
}

proof fn lemma_witness_count_positive(dv: Seq<TypeDefView>, i: int)
    requires
        0 <= i < dv.len(),
        dv[i].1 is Some,
    ensures
        ns_count(dv, dv[i].1.unwrap()) > 0,
{
    let p = |d: TypeDefView| d.1 == Some(dv[i].1.unwrap());
    crate::seqs::lemma_filter_elements(dv, p);
    assert(dv.filter(p).contains(dv[i]));
}

proof fn lemma_most_common(
    dv: Seq<TypeDefView>,
    entries: Seq<(String, usize)>,
    r: Option<String>,
)
    requires
        dv.len() <= usize::MAX,
        sorted_keys(entries),
        forall|k: Seq<char>| #[trigger] lookup(entries, k) == count_entry(dv, k),
        r is None <==> entries.len() == 0,
        r matches Some(k) ==> exists|j: int| is_last_max(entries, j) && entries[j].0 == k,
    ensures
        match opt_chars(r) {
            None => !has_namespace(dv),
            Some(k) => most_common_spec(dv, k),
        },
{
    crate::names::lemma_sorted_is_unique(entries);
    match r {
        None => {
            if has_namespace(dv) {
                let i = choose|i: int|
                    0 <= i < dv.len() && (#[trigger] dv[i]).1 is Some && dv[i].1.unwrap().len() > 0;
                lemma_witness_count_positive(dv, i);
                assert(lookup(entries, dv[i].1.unwrap()) is Some);
            }
        },
        Some(ks) => {
            let j = choose|j: int| is_last_max(entries, j) && entries[j].0 == ks;
            let k = ks@;
            broadcast use vstd::seq_lib::group_filter_ensures;
            crate::names::lemma_lookup_at(entries, j);
            assert(count_entry(dv, k) == Some(entries[j].1));
            assert forall|k2: Seq<char>|
                k2.len() > 0 && #[trigger] ns_count(dv, k2) > 0 implies ns_count(dv, k2) < ns_count(
                dv,
                k,
            ) || (ns_count(dv, k2) == ns_count(dv, k) && (k2 == k || name_lt(k2, k))) by {
                assert(count_entry(dv, k2) is Some);
                assert(lookup(entries, k2) is Some);
                assert(position_of(entries, k2) is Some);
                assert(exists|i: int| 0 <= i < entries.len() && entries[i].0@ == k2);
                let i2 = choose|i: int| 0 <= i < entries.len() && entries[i].0@ == k2;
                crate::names::lemma_lookup_at(entries, i2);
                assert(entries[i2].1 <= entries[j].1);
                assert(ns_count(dv, k2) <= dv.len());
                assert(ns_count(dv, k) <= dv.len());
                assert(entries[i2].1 == ns_count(dv, k2));
                assert(entries[j].1 == ns_count(dv, k));
                if entries[i2].1 == entries[j].1 {
                    if i2 == j {
                        assert(k2 == k);
                    } else {
                        assert(i2 < j);
                        assert(name_lt(entries[i2].0@, entries[j].0@));
                    }
                }
            }
        },
    }
}

/// Validates that the assembly can be inspected as .NET metadata.
pub fn validate_assembly(assembly: &[u8]) -> (r: Result<(), Error>)
    ensures
        match assembly_types(assembly@) {
            Ok(_) => r is Ok,
            Err(m) => r matches Err(Error::AssemblyMetadata(e)) && e@ == m,
        },
{
    match read_assembly_types(assembly) {
        Ok(_) => Ok(()),
        Err(m) => Err(Error::AssemblyMetadata(m)),
    }
}

/// Infers the namespace for a loader class from .NET metadata: the class's
/// own namespace is preferred; if the class is absent or ambiguous, the most
/// common non-empty namespace of the assembly is used.
pub fn infer_namespace(assembly: &[u8], class_name: &str) -> (r: Result<Option<String>, Error>)
    ensures
        match assembly_types(assembly@) {
            Ok(defs) => r matches Ok(o) && inferred_namespace_ok(defs, class_name@, opt_chars(o)),
            Err(m) => r matches Err(Error::AssemblyMetadata(e)) && e@ == m,
        },
{
    let defs = match read_assembly_types(assembly) {
        Ok(d) => d,
        Err(m) => return Err(Error::AssemblyMetadata(m)),
    };
    match namespace_for_class(&defs, class_name) {
        Some(n) => Ok(Some(n)),
        None => {
            let n = defs.len();
            let counts = namespace_counts(&defs);
            let ghost entries = counts@;
            let r = most_common_namespace(counts);
            proof {
                assert(defs_view(defs@).len() == n);
                lemma_most_common(defs_view(defs@), entries, r);
            }
            Ok(r)
        },
    }
}

} // verus!
