//! Bounds checks on the metadata layout of a managed image, made before the
//! image is handed to the full metadata reader: every stream lies inside its
//! section, the table row counts fit in the tables stream, and every embedded
//! resource lies inside the resources directory.
use vstd::prelude::*;

use dotnetdll::binary::cli::RVASize;
use dotnetdll::binary::metadata::index::Implementation;
use dotnetdll::prelude::DLL;

use crate::text::str_eq;

verus! {

/// Where the metadata of an image lies, as `dotnetdll` reads it from the PE
/// and CLI headers: the metadata root's RVA, the managed resources' RVA and
/// size, and each stream header's name, offset and size, in header order.
pub uninterp spec fn dotnet_metadata_layout(image: Seq<u8>) -> Option<(u32, u32, u32, Seq<(Seq<char>, u32, u32)>)>;

/// The bytes that `dotnetdll` maps for `size` bytes at `rva`, if that range
/// lies inside one section of the image.
pub uninterp spec fn dotnet_rva_range(image: Seq<u8>, rva: u32, size: u32) -> Option<Seq<u8>>;

/// The rows of the manifest resource table, as flags, whether the resource
/// is embedded in this file, and offset.
pub uninterp spec fn dotnet_manifest_rows(image: Seq<u8>) -> Option<Seq<(u32, bool, u32)>>;

/// Names, offsets and sizes of stream headers.
pub open spec fn streams_view(v: Seq<(String, u32, u32)>) -> Seq<(Seq<char>, u32, u32)> {
    v.map_values(|h: (String, u32, u32)| (h.0@, h.1, h.2))
}

/// The optional byte vector's bytes.
pub open spec fn opt_bytes(o: Option<Vec<u8>>) -> Option<Seq<u8>> {
    match o {
        Some(b) => Some(b@),
        None => None,
    }
}

/// Reads the metadata layout with `dotnetdll`.
///
/// Trusted: `DLL::parse` followed by `DLL::get_cli_metadata`; `None` when
/// either fails. The RVAs and sizes are the CLI header's fields, the streams
/// are the metadata root's stream headers. Both steps read with bounds
/// checks (`object` and `scroll`), so the call returns on every input.
#[verifier::external_body]
fn read_metadata_layout(image: &[u8]) -> (r: Option<(u32, u32, u32, Vec<(String, u32, u32)>)>)
    ensures
        match dotnet_metadata_layout(image@) {
            None => r is None,
            Some(l) => r matches Some(x) && x.0 == l.0 && x.1 == l.1 && x.2 == l.2 && streams_view(
                x.3@,
            ) == l.3,
        },
{
    let dll = DLL::parse(image).ok()?;
    let meta = dll.get_cli_metadata().ok()?;
    let streams = meta.stream_headers.iter().map(|h| (h.name.to_string(), h.offset, h.size)).collect();
    Some((dll.cli.metadata.rva, dll.cli.resources.rva, dll.cli.resources.size, streams))
}

/// Reads `size` bytes at `rva` with `dotnetdll`.
///
/// Trusted: `DLL::parse`, then `DLL::at_rva`, which maps the RVA through the
/// section table and gives exactly `size` bytes, or an error when the range
/// does not lie inside the section's data; `None` when either step fails.
#[verifier::external_body]
fn read_rva_range(image: &[u8], rva: u32, size: u32) -> (r: Option<Vec<u8>>)
    ensures
        opt_bytes(r) == dotnet_rva_range(image@, rva, size),
        r matches Some(b) ==> b@.len() == size,
{
    let dll = DLL::parse(image).ok()?;
    dll.at_rva(&RVASize { rva, size }).ok().map(|d| d.to_vec())
}

/// Reads the manifest resource table with `dotnetdll`.
///
/// Trusted: `DLL::parse`, then `DLL::get_logical_metadata`, which reads the
/// tables stream; `None` when either fails. Each row gives its flags, whether
/// its implementation is the null index (the resource is embedded in this
/// file), and its offset. The tables stream is sliced and its row counts
/// reserved before the rows are read, so the image's streams must lie inside
/// their sections and its row counts must fit in the tables stream.
#[verifier::external_body]
fn read_manifest_rows(image: &[u8]) -> (r: Option<Vec<(u32, bool, u32)>>)
    requires
        streams_fit(image@),
        tables_fit(image@),
    ensures
        match dotnet_manifest_rows(image@) {
            None => r is None,
            Some(rows) => r matches Some(v) && v@ == rows,
        },
{
    let dll = DLL::parse(image).ok()?;
    let header = dll.get_logical_metadata().ok()?;
    Some(
        header.tables.manifest_resource.iter().map(
            |m| (m.flags, matches!(m.implementation, Implementation::Null), m.offset),
        ).collect(),
    )
}

/// The little-endian `u32` at offset `o`.
pub open spec fn le_u32(s: Seq<u8>, o: int) -> int {
    s[o] as int + 256 * s[o + 1] as int + 65536 * s[o + 2] as int + 16777216 * s[o + 3] as int
}

/// Number of set bits among the lowest `k` bits of `b`.
pub open spec fn low_bits(b: nat, k: nat) -> nat
    decreases k,
{
    if k == 0 {
        0
    } else {
        b % 2 + low_bits(b / 2, (k - 1) as nat)
    }
}

/// Number of set bits in the first `n` bytes of the tables stream's mask of
/// present tables (the little-endian `u64` at offset 8).
pub open spec fn present_tables(s: Seq<u8>, n: nat) -> nat
    decreases n,
{
    if n == 0 {
        0
    } else {
        present_tables(s, (n - 1) as nat) + low_bits(s[8 + n - 1] as nat, 8)
    }
}

/// Sum of the first `k` row counts, which follow the header at offset 24.
pub open spec fn row_total(s: Seq<u8>, k: nat) -> int
    decreases k,
{
    if k == 0 {
        0
    } else {
        row_total(s, (k - 1) as nat) + le_u32(s, 24 + 4 * (k - 1))
    }
}

/// The row counts of a tables stream add up to no more than its length; a
/// stream too short to hold its counts is read no further than that.
pub open spec fn row_counts_fit(s: Seq<u8>) -> bool {
    let k = present_tables(s, 8);
    s.len() >= 24 + 4 * k ==> row_total(s, k) <= s.len()
}

/// The name of the tables stream.
pub open spec fn tables_stream_name() -> Seq<char> {
    seq!['#', '~']
}

/// Index `i` holds the first stream header named `name`.
pub open spec fn first_named(streams: Seq<(Seq<char>, u32, u32)>, name: Seq<char>, i: int) -> bool {
    &&& 0 <= i < streams.len()
    &&& streams[i].0 == name
    &&& forall|j: int| 0 <= j < i ==> streams[j].0 != name
}

/// Every stream of the layout lies inside one section, and its RVA, the
/// metadata root's plus its offset, fits in 32 bits.
pub open spec fn streams_fit(image: Seq<u8>) -> bool {
    match dotnet_metadata_layout(image) {
        None => true,
        Some(l) => forall|i: int|
            0 <= i < l.3.len() ==> l.0 + (#[trigger] l.3[i]).1 <= u32::MAX && dotnet_rva_range(
                image,
                (l.0 + l.3[i].1) as u32,
                l.3[i].2,
            ) is Some,
    }
}

/// The row counts of the tables stream fit in it.
pub open spec fn tables_fit(image: Seq<u8>) -> bool {
    match dotnet_metadata_layout(image) {
        None => true,
        Some(l) => forall|i: int|
            first_named(l.3, tables_stream_name(), i) ==> match dotnet_rva_range(
                image,
                (l.0 + l.3[i].1) as u32,
                l.3[i].2,
            ) {
                Some(s) => row_counts_fit(s),
                None => true,
            },
    }
}

/// A manifest resource row that is read from this file: a defined
/// visibility (public or private) and the null implementation index.
pub open spec fn embedded_row(row: (u32, bool, u32)) -> bool {
    (row.0 % 8 == 1 || row.0 % 8 == 2) && row.1
}

/// The embedded resource at `offset` of the resources data: its length
/// prefix, where the data holds one, is followed by that many bytes.
pub open spec fn resource_fits(data: Seq<u8>, offset: u32) -> bool {
    offset + 4 <= data.len() ==> offset + 4 + le_u32(data, offset as int) <= data.len()
}

/// Every embedded resource lies inside the resources directory.
pub open spec fn resources_fit(image: Seq<u8>) -> bool {
    match dotnet_metadata_layout(image) {
        None => true,
        Some(l) => match dotnet_rva_range(image, l.1, l.2) {
            None => true,
            Some(data) => match dotnet_manifest_rows(image) {
                None => true,
                Some(rows) => forall|i: int|
                    0 <= i < rows.len() && embedded_row(#[trigger] rows[i]) ==> resource_fits(
                        data,
                        rows[i].2,
                    ),
            },
        },
    }
}

/// The layout of the image is within bounds: streams, table row counts and
/// embedded resources.
pub open spec fn image_in_bounds(image: Seq<u8>) -> bool {
    streams_fit(image) && tables_fit(image) && resources_fit(image)
}

/// The little-endian `u32` at offset `o`.
pub fn read_le_u32(s: &[u8], o: usize) -> (r: u64)
    requires
        o + 4 <= s@.len(),
    ensures
        r == le_u32(s@, o as int),
        r <= u32::MAX,
{
    s[o] as u64 + 256 * (s[o + 1] as u64) + 65536 * (s[o + 2] as u64) + 16777216 * (s[o + 3] as u64)
}

/// Number of set bits of a byte.
pub fn byte_set_bits(b: u8) -> (r: usize)
    ensures
        r == low_bits(b as nat, 8),
        r <= 8,
{
    let mut x: u8 = b;
    let mut k: usize = 0;
    let mut c: usize = 0;
    while k < 8
        invariant
            k <= 8,
            c <= k,
            c + low_bits(x as nat, (8 - k) as nat) == low_bits(b as nat, 8),
        decreases 8 - k,
    {
        assert(low_bits(x as nat, (8 - k) as nat) == x as nat % 2 + low_bits(
            (x / 2) as nat,
            (8 - k - 1) as nat,
        ));
        c = c + (x % 2) as usize;
        x = x / 2;
        k = k + 1;
    }
    c
}

/// Whether the row counts of a tables stream fit in it.
pub fn row_counts_within(s: &[u8]) -> (r: bool)
    ensures
        r == row_counts_fit(s@),
{
    if s.len() < 24 {
        return true;
    }
    let mut k: usize = 0;
    let mut i: usize = 0;
    while i < 8
        invariant
            i <= 8,
            s@.len() >= 24,
            k == present_tables(s@, i as nat),
            k <= 8 * i,
        decreases 8 - i,
    {
        let c = byte_set_bits(s[8 + i]);
        k = k + c;
        i = i + 1;
    }
    if s.len() < 24 + 4 * k {
        return true;
    }
    let mut total: u64 = 0;
    let mut j: usize = 0;
    while j < k
        invariant
            j <= k,
            k <= 64,
            24 + 4 * k <= s@.len(),
            total == row_total(s@, j as nat),
            total <= j * 0xFFFF_FFFFu64,
        decreases k - j,
    {
        let v = read_le_u32(s, 24 + 4 * j);
        total = total + v;
        j = j + 1;
    }
    total <= s.len() as u64
}


/// Whether the metadata layout of an image is within bounds: every stream
/// inside its section, the table row counts within the tables stream, and
/// every embedded resource inside the resources directory.
pub fn image_within_bounds(image: &[u8]) -> (r: bool)
    ensures
        r == image_in_bounds(image@),
{
    let (meta_rva, res_rva, res_size, streams) = match read_metadata_layout(image) {
        None => return true,
        Some(l) => l,
    };
    let ghost sv = streams_view(streams@);
    let ghost name = tables_stream_name();
    proof {
        reveal_strlit("#~");
        assert("#~"@ =~= name);
    }
    let mut tables: Option<Vec<u8>> = None;
    let ghost mut tj: int = -1;
    let mut i: usize = 0;
    while i < streams.len()
        invariant
            i <= streams.len(),
            sv == streams_view(streams@),
            name == tables_stream_name(),
            "#~"@ == name,
            dotnet_metadata_layout(image@) == Some((meta_rva, res_rva, res_size, sv)),
            forall|j: int|
                0 <= j < i ==> meta_rva + (#[trigger] sv[j]).1 <= u32::MAX && dotnet_rva_range(
                    image@,
                    (meta_rva + sv[j].1) as u32,
                    sv[j].2,
                ) is Some,
            tj == -1 ==> tables is None && forall|j: int| 0 <= j < i ==> (#[trigger] sv[j]).0 != name,
            tj != -1 ==> 0 <= tj < i && first_named(sv, name, tj) && opt_bytes(tables)
                == dotnet_rva_range(image@, (meta_rva + sv[tj].1) as u32, sv[tj].2),
        decreases streams.len() - i,
    {
        assert(sv[i as int] == (streams@[i as int].0@, streams@[i as int].1, streams@[i as int].2));
        let off = streams[i].1;
        if off > u32::MAX - meta_rva {
            return false;
        }
        let bytes = read_rva_range(image, meta_rva + off, streams[i].2);
        if bytes.is_none() {
            return false;
        }
        if tables.is_none() && str_eq(streams[i].0.as_str(), "#~") {
            proof {
                tj = i as int;
            }
            tables = bytes;
        }
        i = i + 1;
    }
    assert(streams_fit(image@));
    match &tables {
        Some(t) => {
            if !row_counts_within(t.as_slice()) {
                return false;
            }
        },
        None => {},
    }
    assert(tables_fit(image@)) by {
        assert forall|j: int| #[trigger] first_named(sv, name, j) implies match dotnet_rva_range(
            image@,
            (meta_rva + sv[j].1) as u32,
            sv[j].2,
        ) {
            Some(s) => row_counts_fit(s),
            None => true,
        } by {
            if tj != -1 {
                if j < tj {
                    assert(sv[j].0 == name);
                } else if j > tj {
                    assert(sv[tj].0 == name);
                }
            } else {
                assert(sv[j].0 != name);
            }
        }
    }
    let data = match read_rva_range(image, res_rva, res_size) {
        None => return true,
        Some(d) => d,
    };
    let rows = match read_manifest_rows(image) {
        None => return true,
        Some(v) => v,
    };
    let mut k: usize = 0;
    while k < rows.len()
        invariant
            k <= rows.len(),
            dotnet_metadata_layout(image@) == Some((meta_rva, res_rva, res_size, sv)),
            dotnet_rva_range(image@, res_rva, res_size) == Some(data@),
            dotnet_manifest_rows(image@) == Some(rows@),
            forall|j: int|
                0 <= j < k && embedded_row(#[trigger] rows@[j]) ==> resource_fits(data@, rows@[j].2),
        decreases rows.len() - k,
    {
        let (flags, null_impl, offset) = rows[k];
        if (flags % 8 == 1 || flags % 8 == 2) && null_impl {
            if offset as u64 + 4 <= data.len() as u64 {
                let len = read_le_u32(data.as_slice(), offset as usize);
                if offset as u64 + 4 + len > data.len() as u64 {
                    assert(embedded_row(rows@[k as int]));
                    assert(!resource_fits(data@, rows@[k as int].2));
                    proof {
                        let l = dotnet_metadata_layout(image@).unwrap();
                        assert(l.1 == res_rva && l.2 == res_size);
                        assert(dotnet_rva_range(image@, l.1, l.2) == Some(data@));
                        let rw = dotnet_manifest_rows(image@).unwrap();
                        assert(rw[k as int] == rows@[k as int]);
                        assert(0 <= k < rw.len() && embedded_row(rw[k as int]) && !resource_fits(data@, rw[k as int].2));
                    }
                    assert(!resources_fit(image@));
                    return false;
                }
            }
        }
        k = k + 1;
    }
    true
}

} // verus!
