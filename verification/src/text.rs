use vstd::prelude::*;

verus! {

/// `String::push` puts one character behind the text.
pub assume_specification[ String::push ](text: &mut String, c: char)
    ensures
        final(text)@ == old(text)@.push(c),
;

/// `String::pop` takes the last character off the text and hands it back;
/// an empty text stays empty and gives `None`.
pub assume_specification[ String::pop ](text: &mut String) -> (r: Option<char>)
    ensures
        old(text)@.len() == 0 ==> r is None && final(text)@ == old(text)@,
        old(text)@.len() > 0 ==> r == Some(old(text)@.last()) && final(text)@ == old(
            text,
        )@.drop_last(),
;

/// `String::clear` leaves the text empty.
pub assume_specification[ String::clear ](text: &mut String)
    ensures
        final(text)@ == Seq::<char>::empty(),
;

/// Takes the whole text out and leaves an empty one behind.
pub fn take_text(text: &mut String) -> (r: String)
    ensures
        r@ == old(text)@,
        final(text)@ == Seq::<char>::empty(),
{
    let mut taken = String::new();
    std::mem::swap(text, &mut taken);
    taken
}

} // verus!
