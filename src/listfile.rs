use vstd::prelude::*;

verus! {

/// What `String::from_utf8_lossy` makes of the bytes.
pub uninterp spec fn lossy_utf8(b: Seq<u8>) -> Seq<char>;

/// What `str::trim` makes of the text.
pub uninterp spec fn trim_ws(s: Seq<char>) -> Seq<char>;

/// Relies on `String::from_utf8_lossy`: the text depends on the bytes alone.
#[verifier::external_body]
fn decode_lossy(b: &[u8]) -> (r: String)
    ensures
        r@ == lossy_utf8(b@),
{
    String::from_utf8_lossy(b).into_owned()
}

/// Relies on `str::trim`: the text depends on its argument alone.
#[verifier::external_body]
fn trim(s: &str) -> (r: String)
    ensures
        r@ == trim_ws(s@),
{
    s.trim().to_string()
}

/// The lines of `b`: the pieces between line feeds. There is always one
/// more piece than there are line feeds.
pub open spec fn byte_lines(b: Seq<u8>) -> Seq<Seq<u8>>
    decreases b.len(),
{
    if b.len() == 0 {
        seq![Seq::<u8>::empty()]
    } else {
        let p = byte_lines(b.drop_last());
        if b.last() == 10u8 {
            p.push(Seq::<u8>::empty())
        } else {
            p.update(p.len() - 1, p.last().push(b.last()))
        }
    }
}

/// The candidate names a list holds: each line decoded permissively and
/// trimmed; blank lines stay, as empty names.
pub open spec fn listfile_names_spec(b: Seq<u8>) -> Seq<Seq<char>> {
    byte_lines(b).map_values(|l: Seq<u8>| trim_ws(lossy_utf8(l)))
}

fn line_name(b: &[u8], start: usize, end: usize) -> (r: String)
    requires
        start <= end <= b@.len(),
    ensures
        r@ == trim_ws(lossy_utf8(b@.subrange(start as int, end as int))),
{
    let piece = vstd::slice::slice_subrange(b, start, end);
    let text = decode_lossy(piece);
    trim(text.as_str())
}

/// Splits the raw content of a list into candidate names.
pub fn listfile_names(b: &[u8]) -> (r: Vec<String>)
    ensures
        r@.map_values(|s: String| s@) == listfile_names_spec(b@),
{
    let mut out: Vec<String> = Vec::new();
    let ghost mut lines: Seq<Seq<u8>> = Seq::empty();
    let mut start: usize = 0;
    let mut i: usize = 0;
    assert(b@.subrange(0, 0) =~= Seq::<u8>::empty());
    assert(lines.push(b@.subrange(0, 0)) =~= seq![Seq::<u8>::empty()]);
    while i < b.len()
        invariant
            start <= i <= b@.len(),
            byte_lines(b@.subrange(0, i as int)) == lines.push(b@.subrange(start as int, i as int)),
            out.len() == lines.len(),
            forall|j: int| 0 <= j < lines.len() ==> (#[trigger] out@[j])@ == trim_ws(lossy_utf8(lines[j])),
        decreases b.len() - i,
    {
        let ghost pre = b@.subrange(0, i + 1);
        assert(pre.drop_last() =~= b@.subrange(0, i as int));
        assert(pre.last() == b@[i as int]);
        if b[i] == 10u8 {
            out.push(line_name(b, start, i));
            proof {
                lines = lines.push(b@.subrange(start as int, i as int));
            }
            start = i + 1;
            assert(b@.subrange(start as int, start as int) =~= Seq::<u8>::empty());
        } else {
            assert(b@.subrange(start as int, i + 1) =~= b@.subrange(start as int, i as int).push(b@[i as int]));
            assert(lines.push(b@.subrange(start as int, i as int)).update(lines.len() as int, b@.subrange(start as int, i + 1)) =~= lines.push(b@.subrange(start as int, i + 1)));
        }
        i = i + 1;
    }
    out.push(line_name(b, start, i));
    proof {
        lines = lines.push(b@.subrange(start as int, i as int));
    }
    assert(b@.subrange(0, i as int) =~= b@);
    assert(out@.map_values(|s: String| s@) =~= listfile_names_spec(b@));
    out
}

} // verus!
