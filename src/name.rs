use vstd::prelude::*;
use vstd::utf8::encode_utf8;

verus! {

/// The octet that separates the labels of a dotted name.
pub const LABEL_SEPARATOR: u8 = 46;

/// The labels of a dotted name, read left to right: the bytes between
/// separators. A name without separators is a single label; an empty name is
/// a single empty label.
pub open spec fn split_labels(b: Seq<u8>) -> Seq<Seq<u8>>
    decreases b.len(),
{
    if b.len() == 0 {
        seq![Seq::empty()]
    } else {
        let init = split_labels(b.drop_last());
        if b.last() == LABEL_SEPARATOR {
            init.push(Seq::empty())
        } else {
            init.update(init.len() - 1, init.last().push(b.last()))
        }
    }
}

/// Each label as one length octet followed by the label's bytes.
pub open spec fn label_octets(labels: Seq<Seq<u8>>) -> Seq<u8>
    decreases labels.len(),
{
    if labels.len() == 0 {
        Seq::empty()
    } else {
        label_octets(labels.drop_last()) + seq![labels.last().len() as u8] + labels.last()
    }
}

/// The uncompressed wire form of a dotted name given as bytes: its
/// length-prefixed labels, then the zero octet of the root.
pub open spec fn name_wire(b: Seq<u8>) -> Seq<u8> {
    label_octets(split_labels(b)).push(0)
}

/// The wire form of a name given as characters, encoded as UTF-8.
pub open spec fn name_wire_chars(s: Seq<char>) -> Seq<u8> {
    name_wire(encode_utf8(s))
}

/// Appends `b[from..to]` to `out`.
pub(crate) fn push_range(out: &mut Vec<u8>, b: &[u8], from: usize, to: usize)
    requires
        from <= to <= b@.len(),
    ensures
        final(out)@ == old(out)@ + b@.subrange(from as int, to as int),
{
    let mut j = from;
    while j < to
        invariant
            from <= j <= to,
            to <= b@.len(),
            out@ == old(out)@ + b@.subrange(from as int, j as int),
        decreases to - j,
    {
        out.push(b[j]);
        j += 1;
        assert(out@ =~= old(out)@ + b@.subrange(from as int, j as int));
    }
}

/// Appends the wire form of the dotted name `b` to `out`.
pub(crate) fn push_name_wire(out: &mut Vec<u8>, b: &[u8])
    ensures
        final(out)@ == old(out)@ + name_wire(b@),
{
    let ghost prefix = out@;
    let mut start: usize = 0;
    let mut i: usize = 0;
    proof {
        assert(b@.subrange(0, 0) =~= Seq::<u8>::empty());
        assert(label_octets(Seq::<Seq<u8>>::empty()) =~= Seq::<u8>::empty());
    }
    while i < b.len()
        invariant
            prefix == old(out)@,
            0 <= start <= i <= b@.len(),
            split_labels(b@.subrange(0, i as int)).len() >= 1,
            split_labels(b@.subrange(0, i as int)).last() == b@.subrange(start as int, i as int),
            out@ == prefix + label_octets(split_labels(b@.subrange(0, i as int)).drop_last()),
        decreases b@.len() - i,
    {
        let ghost s = split_labels(b@.subrange(0, i as int));
        assert(b@.subrange(0, i + 1).drop_last() =~= b@.subrange(0, i as int));
        if b[i] == LABEL_SEPARATOR {
            out.push((i - start) as u8);
            push_range(out, b, start, i);
            proof {
                let s2 = split_labels(b@.subrange(0, i + 1));
                assert(s2 == s.push(Seq::empty()));
                assert(s2.drop_last() =~= s);
                assert(s =~= s.drop_last().push(s.last()));
                assert(out@ =~= prefix + label_octets(s2.drop_last()));
                assert(b@.subrange(i + 1, i + 1) =~= Seq::<u8>::empty());
            }
            start = i + 1;
        } else {
            proof {
                let s2 = split_labels(b@.subrange(0, i + 1));
                assert(s2.drop_last() =~= s.drop_last());
                assert(s2.last() =~= b@.subrange(start as int, i + 1));
            }
        }
        i += 1;
    }
    let ghost s = split_labels(b@.subrange(0, i as int));
    out.push((i - start) as u8);
    push_range(out, b, start, i);
    out.push(0);
    proof {
        assert(b@.subrange(0, i as int) =~= b@);
        assert(s =~= s.drop_last().push(s.last()));
        assert(out@ =~= prefix + name_wire(b@));
    }
}

/// A domain name in dotted form, such as `host.local`.
#[derive(Debug)]
pub struct Name {
    content: String,
}

impl View for Name {
    type V = Seq<char>;

    closed spec fn view(&self) -> Seq<char> {
        self.content@
    }
}

impl Name {
    /// Makes a name of the dotted string `name`; every string is accepted.
    pub fn new(name: String) -> (r: Result<Name, String>)
        ensures
            r matches Ok(n) && n@ == name@,
    {
        Ok(Name { content: name })
    }

    /// The name's labels, each prefixed with its length, then a zero octet.
    pub fn to_bytes(&self) -> (r: Vec<u8>)
        ensures
            r@ == name_wire_chars(self@),
    {
        let mut bytes: Vec<u8> = Vec::new();
        push_name_wire(&mut bytes, self.content.as_str().as_bytes());
        bytes
    }

    /// Appends the wire form of the name to `out`.
    pub(crate) fn push_wire(&self, out: &mut Vec<u8>)
        ensures
            final(out)@ == old(out)@ + name_wire_chars(self@),
    {
        push_name_wire(out, self.content.as_str().as_bytes());
    }
}

} // verus!
