use vstd::prelude::*;

verus! {

/// What the summary of a user shows of one character, already in text.
pub struct CharacterLine {
    pub name: String,
    pub class: String,
    pub level: String,
    pub income: String,
}

/// The line that shows one character.
pub open spec fn character_line(c: CharacterLine) -> Seq<char> {
    "\n닉네임: "@ + c.name@ + ", 클래스: "@ + c.class@ + ", 레벨: "@ + c.level@ + ", 수입: "@
        + c.income@
}

/// The lines of all characters, in order.
pub open spec fn character_lines(cs: Seq<CharacterLine>) -> Seq<char>
    decreases cs.len(),
{
    if cs.len() == 0 {
        Seq::empty()
    } else {
        character_lines(cs.drop_last()) + character_line(cs.last())
    }
}

/// The summary of a user: the user's name, then one line per character.
pub fn msg_from_user_info(user_name: &str, characters: &Vec<CharacterLine>) -> (r: String)
    ensures
        r@ == user_name@ + character_lines(characters@),
{
    let mut result = String::from_str(user_name);
    let mut i: usize = 0;
    while i < characters.len()
        invariant
            i <= characters@.len(),
            result@ == user_name@ + character_lines(characters@.take(i as int)),
        decreases characters@.len() - i,
    {
        let c = &characters[i];
        result.append("\n닉네임: ");
        result.append(c.name.as_str());
        result.append(", 클래스: ");
        result.append(c.class.as_str());
        result.append(", 레벨: ");
        result.append(c.level.as_str());
        result.append(", 수입: ");
        result.append(c.income.as_str());
        proof {
            assert(characters@.take(i + 1).drop_last() =~= characters@.take(i as int));
            assert(characters@.take(i + 1).last() == *c);
        }
        i = i + 1;
        proof {
            assert(result@ =~= user_name@ + character_lines(characters@.take(i as int)));
        }
    }
    proof {
        assert(characters@.take(i as int) =~= characters@);
    }
    result
}

} // verus!
