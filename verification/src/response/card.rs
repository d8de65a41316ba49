//! Cards shown in the companion app.
use vstd::prelude::*;
use vstd::string::*;

verus! {

/// The kinds of card.
#[derive(Debug, Clone, Copy, PartialEq, Eq, Structural)]
pub enum CardType {
    Simple,
    Standard,
    LinkAccount,
    AskForPermission,
}

impl CardType {
    /// The word that stands for this kind on the wire.
    pub open spec fn tag(self) -> Seq<char> {
        match self {
            CardType::Simple => "Simple"@,
            CardType::Standard => "Standard"@,
            CardType::LinkAccount => "LinkAccount"@,
            CardType::AskForPermission => "AskForPermissonConsent"@,
        }
    }

    /// The word that stands for this kind on the wire.
    pub fn to_string(&self) -> (tag: String)
        ensures
            tag@ == self.tag(),
    {
        match self {
            CardType::Simple => "Simple".to_owned(),
            CardType::Standard => "Standard".to_owned(),
            CardType::LinkAccount => "LinkAccount".to_owned(),
            CardType::AskForPermission => "AskForPermissonConsent".to_owned(),
        }
    }

    /// Different kinds have different words.
    pub proof fn lemma_tags_differ(a: CardType, b: CardType)
        requires
            a != b,
        ensures
            a.tag() != b.tag(),
    {
        reveal_strlit("Simple");
        reveal_strlit("Standard");
        reveal_strlit("LinkAccount");
        reveal_strlit("AskForPermissonConsent");
        assert("Simple"@.len() == 6);
        assert("Standard"@.len() == 8);
        assert("LinkAccount"@.len() == 11);
        assert("AskForPermissonConsent"@.len() == 22);
    }
}

/// A card. Which of the optional fields are filled depends on its kind.
#[derive(Debug, Clone, PartialEq, Eq)]
pub struct Card {
    pub card_type: String,
    pub title: Option<String>,
    pub text: Option<String>,
    pub content: Option<String>,
    pub image: Option<CardImage>,
    pub permissions: Option<Vec<String>>,
}

impl Card {
    /// A card of the given kind with every field as given.
    pub fn new(
        card_type: CardType,
        title: Option<String>,
        text: Option<String>,
        content: Option<String>,
        image: Option<CardImage>,
        permissions: Option<Vec<String>>,
    ) -> (card: Card)
        ensures
            card.card_type@ == card_type.tag(),
            card.title == title,
            card.text == text,
            card.content == content,
            card.image == image,
            card.permissions == permissions,
    {
        Card { card_type: card_type.to_string(), title, content, image, text, permissions }
    }

    /// A simple card: a title and a content, no text, image or permissions.
    pub fn simple(title: String, content: String) -> (card: Card)
        ensures
            card.card_type@ == CardType::Simple.tag(),
            card.title == Some(title),
            card.text is None,
            card.content == Some(content),
            card.image is None,
            card.permissions is None,
    {
        Card {
            card_type: CardType::Simple.to_string(),
            title: Some(title),
            text: None,
            content: Some(content),
            image: None,
            permissions: None,
        }
    }

    /// A standard card: a title, a text and an image with the two given
    /// addresses, no content or permissions.
    pub fn standard(
        title: String,
        text: String,
        small_image_url: Option<String>,
        large_image_url: Option<String>,
    ) -> (card: Card)
        ensures
            card.card_type@ == CardType::Standard.tag(),
            card.title == Some(title),
            card.text == Some(text),
            card.content is None,
            card.image == Some(CardImage { small_image_url, large_image_url }),
            card.permissions is None,
    {
        Card {
            card_type: CardType::Standard.to_string(),
            title: Some(title),
            text: Some(text),
            content: None,
            image: Some(CardImage { small_image_url, large_image_url }),
            permissions: None,
        }
    }

    /// A card that asks the user to link an account: no optional field.
    pub fn account_link() -> (card: Card)
        ensures
            card.card_type@ == CardType::LinkAccount.tag(),
            card.title is None,
            card.text is None,
            card.content is None,
            card.image is None,
            card.permissions is None,
    {
        Card {
            card_type: CardType::LinkAccount.to_string(),
            title: None,
            text: None,
            content: None,
            image: None,
            permissions: None,
        }
    }

    /// A card that asks the user for the given permissions, and holds
    /// nothing else.
    pub fn permissions(permissions: Vec<String>) -> (card: Card)
        ensures
            card.card_type@ == CardType::AskForPermission.tag(),
            card.title is None,
            card.text is None,
            card.content is None,
            card.image is None,
            card.permissions == Some(permissions),
    {
        Card {
            card_type: CardType::AskForPermission.to_string(),
            title: None,
            text: None,
            content: None,
            permissions: Some(permissions),
            image: None,
        }
    }
}

/// The two sizes of a card's image, each by its address.
#[derive(Debug, Clone, PartialEq, Eq)]
pub struct CardImage {
    pub small_image_url: Option<String>,
    pub large_image_url: Option<String>,
}

impl CardImage {
    /// An image with the small address `siu` and the large address `liu`.
    pub fn new(siu: Option<String>, liu: Option<String>) -> (image: CardImage)
        ensures
            image == (CardImage { small_image_url: siu, large_image_url: liu }),
    {
        CardImage { small_image_url: siu, large_image_url: liu }
    }
}

} // verus!
