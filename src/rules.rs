use vstd::prelude::*;

verus! {

/// The rules that survive extraction: every element that was decoded, in
/// order; the elements that could not be decoded (`None`) are left out.
pub open spec fn decoded_rules(items: Seq<Option<String>>) -> Seq<String>
    decreases items.len(),
{
    if items.len() == 0 {
        Seq::empty()
    } else {
        let rest = decoded_rules(items.drop_last());
        match items.last() {
            Some(s) => rest.push(s),
            None => rest,
        }
    }
}

/// Best-effort extraction of a rule list: an element that could not be
/// decoded is skipped, never fatal to the batch.
pub fn collect_rules(items: Vec<Option<String>>) -> (r: Vec<String>)
    ensures
        r@ == decoded_rules(items@),
{
    let mut out: Vec<String> = Vec::new();
    let mut i: usize = 0;
    while i < items.len()
        invariant
            i <= items@.len(),
            out@ == decoded_rules(items@.take(i as int)),
        decreases items@.len() - i,
    {
        proof {
            assert(items@.take(i as int + 1).drop_last() =~= items@.take(i as int));
        }
        match &items[i] {
            Some(s) => {
                out.push(s.clone());
            },
            None => {},
        }
        i = i + 1;
    }
    proof {
        assert(items@.take(items@.len() as int) =~= items@);
    }
    out
}

} // verus!
