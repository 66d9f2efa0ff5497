//! What the order of pixels amounts to, channel by channel.
use crate::formats::rgb::Rgb;
use crate::order::then_with;
use core::cmp::Ordering;
use vstd::prelude::*;
use vstd::std_specs::cmp::PartialOrdSpec;

verus! {

/// `then_with` is the lexicographic step: the pair compares as its first
/// comparison does, and as its second only where the first finds equality.
pub proof fn lemma_then_with(first: Option<Ordering>, rest: Option<Ordering>)
    ensures
        then_with(first, rest) == Some(Ordering::Less) <==> first == Some(Ordering::Less) || (first
            == Some(Ordering::Equal) && rest == Some(Ordering::Less)),
        then_with(first, rest) == Some(Ordering::Greater) <==> first == Some(Ordering::Greater) || (
        first == Some(Ordering::Equal) && rest == Some(Ordering::Greater)),
        then_with(first, rest) == Some(Ordering::Equal) <==> first == Some(Ordering::Equal) && rest
            == Some(Ordering::Equal),
        then_with(first, rest) is None <==> first is None || (first == Some(Ordering::Equal)
            && rest is None),
{
}

/// Three-channel pixels are ordered channel by channel in declared order: one
/// is less than another where its first channel is less, or the first channels
/// are equal and its second is less, or those are equal too and its third is
/// less.
pub proof fn lemma_rgb_less<T: PartialOrd>(p: Rgb<T>, q: Rgb<T>)
    ensures
        p.partial_cmp_spec(&q) == Some(Ordering::Less) <==> {
            ||| p.r.partial_cmp_spec(&q.r) == Some(Ordering::Less)
            ||| p.r.partial_cmp_spec(&q.r) == Some(Ordering::Equal) && p.g.partial_cmp_spec(&q.g)
                == Some(Ordering::Less)
            ||| p.r.partial_cmp_spec(&q.r) == Some(Ordering::Equal) && p.g.partial_cmp_spec(&q.g)
                == Some(Ordering::Equal) && p.b.partial_cmp_spec(&q.b) == Some(Ordering::Less)
        },
{
}

/// On 8-bit channels that order is the order of the triples of numbers, and
/// `<` computes it.
pub proof fn lemma_rgb8_less(p: Rgb<u8>, q: Rgb<u8>)
    ensures
        Rgb::<u8>::obeys_partial_cmp_spec(),
        p.partial_cmp_spec(&q) == Some(Ordering::Less) <==> {
            ||| p.r < q.r
            ||| p.r == q.r && p.g < q.g
            ||| p.r == q.r && p.g == q.g && p.b < q.b
        },
        p.partial_cmp_spec(&q) == Some(Ordering::Equal) <==> p == q,
{
}

} // verus!
