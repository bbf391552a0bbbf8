use vstd::prelude::*;

verus! {

/// The text a discover-result card shows for one show: a name and a
/// description label, both empty until set.
pub struct ExploreCard {
    name: String,
    description: String,
}

impl ExploreCard {
    pub closed spec fn name_text(self) -> Seq<char> {
        self.name@
    }

    pub closed spec fn description_text(self) -> Seq<char> {
        self.description@
    }

    pub fn new() -> (card: Self)
        ensures
            card.name_text() == Seq::<char>::empty(),
            card.description_text() == Seq::<char>::empty(),
    {
        ExploreCard { name: String::new(), description: String::new() }
    }

    pub fn set_name(&mut self, name: &str)
        ensures
            final(self).name_text() == name@,
            final(self).description_text() == old(self).description_text(),
    {
        self.name = name.to_owned();
    }

    pub fn set_description(&mut self, content: &str)
        ensures
            final(self).description_text() == content@,
            final(self).name_text() == old(self).name_text(),
    {
        self.description = content.to_owned();
    }

    pub fn name(&self) -> (r: &String)
        ensures
            r@ == self.name_text(),
    {
        &self.name
    }

    pub fn description(&self) -> (r: &String)
        ensures
            r@ == self.description_text(),
    {
        &self.description
    }
}

impl Default for ExploreCard {
    fn default() -> (card: Self)
        ensures
            card.name_text() == Seq::<char>::empty(),
            card.description_text() == Seq::<char>::empty(),
    {
        ExploreCard::new()
    }
}

} // verus!
