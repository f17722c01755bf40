use crate::util::decode::{decoded_member, member, Decode, Table};
use crate::util::error::Error;
use crate::util::generic_json::{Json, JsonView};
use vstd::prelude::*;

verus! {

/// The news of the game.
#[derive(Debug, PartialEq, Eq)]
pub struct SkyblockNewsResponse {
    pub success: bool,
    pub items: Vec<SkyblockNews>,
}

pub struct SkyblockNewsResponseView {
    pub success: bool,
    pub items: Seq<SkyblockNewsView>,
}

impl DeepView for SkyblockNewsResponse {
    type V = SkyblockNewsResponseView;

    open spec fn deep_view(&self) -> SkyblockNewsResponseView {
        SkyblockNewsResponseView {
            success: self.success.deep_view(),
            items: self.items.deep_view(),
        }
    }
}

impl Decode for SkyblockNewsResponse {
    open spec fn decoded(json: JsonView) -> Result<SkyblockNewsResponseView, Seq<char>> {
        let success = decoded_member::<bool>(json, "success"@);
        let items = decoded_member::<Vec<SkyblockNews>>(json, "items"@);
        if success is Err {
            Err(success->Err_0)
        } else if items is Err {
            Err(items->Err_0)
        } else {
            Ok(
                SkyblockNewsResponseView {
                    success: success->Ok_0,
                    items: items->Ok_0,
                },
            )
        }
    }

    fn decode(json: &Json) -> (r: Result<SkyblockNewsResponse, Error>) {
        let success: bool = match member::<bool>(json, "success") {
            Ok(value) => value,
            Err(error) => {
                return Err(error);
            },
        };
        let items: Vec<SkyblockNews> = match member::<Vec<SkyblockNews>>(json, "items") {
            Ok(value) => value,
            Err(error) => {
                return Err(error);
            },
        };
        Ok(SkyblockNewsResponse { success, items })
    }
}

/// One piece of news, with the item that is shown beside it.
#[derive(Debug, PartialEq, Eq)]
pub struct SkyblockNews {
    pub item: Table<String, Json>,
    pub link: String,
    pub text: String,
    pub title: String,
}

pub struct SkyblockNewsView {
    pub item: Seq<(Seq<char>, JsonView)>,
    pub link: Seq<char>,
    pub text: Seq<char>,
    pub title: Seq<char>,
}

impl DeepView for SkyblockNews {
    type V = SkyblockNewsView;

    open spec fn deep_view(&self) -> SkyblockNewsView {
        SkyblockNewsView {
            item: self.item.deep_view(),
            link: self.link.deep_view(),
            text: self.text.deep_view(),
            title: self.title.deep_view(),
        }
    }
}

impl Decode for SkyblockNews {
    open spec fn decoded(json: JsonView) -> Result<SkyblockNewsView, Seq<char>> {
        let item = decoded_member::<Table<String, Json>>(json, "item"@);
        let link = decoded_member::<String>(json, "link"@);
        let text = decoded_member::<String>(json, "text"@);
        let title = decoded_member::<String>(json, "title"@);
        if item is Err {
            Err(item->Err_0)
        } else if link is Err {
            Err(link->Err_0)
        } else if text is Err {
            Err(text->Err_0)
        } else if title is Err {
            Err(title->Err_0)
        } else {
            Ok(
                SkyblockNewsView {
                    item: item->Ok_0,
                    link: link->Ok_0,
                    text: text->Ok_0,
                    title: title->Ok_0,
                },
            )
        }
    }

    fn decode(json: &Json) -> (r: Result<SkyblockNews, Error>) {
        let item: Table<String, Json> = match member::<Table<String, Json>>(json, "item") {
            Ok(value) => value,
            Err(error) => {
                return Err(error);
            },
        };
        let link: String = match member::<String>(json, "link") {
            Ok(value) => value,
            Err(error) => {
                return Err(error);
            },
        };
        let text: String = match member::<String>(json, "text") {
            Ok(value) => value,
            Err(error) => {
                return Err(error);
            },
        };
        let title: String = match member::<String>(json, "title") {
            Ok(value) => value,
            Err(error) => {
                return Err(error);
            },
        };
        Ok(SkyblockNews { item, link, text, title })
    }
}

} // verus!
