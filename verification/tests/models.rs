use ani_l::models::{AniListResponse, Data, Media, MediaTitle, Page, PageInfo};

fn media(id: i32, title: MediaTitle) -> Media {
    Media {
        id,
        title,
        cover_image: None,
        episodes: None,
        description: None,
        average_score: None,
        genres: vec![],
        studios: None,
        trailer: None,
    }
}

#[test]
fn test_media_preferred_title() {
    // Case 1: English title exists
    let m1 = Media {
        id: 1,
        title: MediaTitle {
            english: Some("Naruto".into()),
            romaji: Some("Naruto".into()),
            native: None,
        },
        cover_image: None,
        episodes: None,
        description: None,
        average_score: None,
        genres: vec![],
        studios: None,
        trailer: None,
    };
    assert_eq!(m1.preferred_title(), "Naruto");

    // Case 2: Only Romaji exists
    let m2 = Media {
        id: 2,
        title: MediaTitle {
            english: None,
            romaji: Some("Shingeki no Kyojin".into()),
            native: None,
        },
        cover_image: None,
        episodes: None,
        description: None,
        average_score: None,
        genres: vec![],
        studios: None,
        trailer: None,
    };
    assert_eq!(m2.preferred_title(), "Shingeki no Kyojin");
}

#[test]
fn preferred_title_falls_back_to_native() {
    let m = media(3, MediaTitle { english: None, romaji: None, native: Some("進撃の巨人".into()) });
    assert_eq!(m.preferred_title(), "進撃の巨人");
}

#[test]
fn preferred_title_of_untitled_media() {
    let m = media(4, MediaTitle { english: None, romaji: None, native: None });
    assert_eq!(m.preferred_title(), "Unknown Title");
}

#[test]
fn preferred_title_prefers_english_over_all() {
    let m = media(
        5,
        MediaTitle {
            english: Some("Attack on Titan".into()),
            romaji: Some("Shingeki no Kyojin".into()),
            native: Some("進撃の巨人".into()),
        },
    );
    assert_eq!(m.preferred_title(), "Attack on Titan");
}

fn text_member(value: &serde_json::Value, key: &str) -> Option<String> {
    value.get(key).and_then(|v| v.as_str()).map(|s| s.to_string())
}

/// Reads a reply as it arrives from the catalogue into the library's types.
fn reply_from(value: &serde_json::Value) -> Option<AniListResponse> {
    let data = value.get("data")?;
    let page = match data.get("Page") {
        Some(page) => {
            let info = page.get("pageInfo")?;
            let mut media_list = Vec::new();
            for entry in page.get("media")?.as_array()? {
                let title = entry.get("title")?;
                media_list.push(Media {
                    id: i32::try_from(entry.get("id")?.as_i64()?).ok()?,
                    title: MediaTitle {
                        romaji: text_member(title, "romaji"),
                        english: text_member(title, "english"),
                        native: text_member(title, "native"),
                    },
                    cover_image: None,
                    episodes: None,
                    description: text_member(entry, "description"),
                    average_score: None,
                    genres: entry
                        .get("genres")?
                        .as_array()?
                        .iter()
                        .filter_map(|g| g.as_str().map(|s| s.to_string()))
                        .collect(),
                    studios: None,
                    trailer: None,
                });
            }
            Some(Page {
                page_info: PageInfo {
                    total: i32::try_from(info.get("total")?.as_i64()?).ok()?,
                    current_page: i32::try_from(info.get("currentPage")?.as_i64()?).ok()?,
                    has_next_page: info.get("hasNextPage")?.as_bool()?,
                },
                media: media_list,
            })
        }
        None => None,
    };
    Some(AniListResponse { data: Data { page, viewer: None, saved_entry: None, media_list: None } })
}

#[test]
fn test_anilist_response_deserialization() {
    let mut page_info = serde_json::Map::new();
    page_info.insert("total".to_string(), 100.into());
    page_info.insert("currentPage".to_string(), 1.into());
    page_info.insert("hasNextPage".to_string(), true.into());
    let mut title = serde_json::Map::new();
    title.insert("english".to_string(), "Cowboy Bebop".into());
    let mut entry = serde_json::Map::new();
    entry.insert("id".to_string(), 1.into());
    entry.insert("title".to_string(), serde_json::Value::Object(title));
    entry.insert(
        "genres".to_string(),
        serde_json::Value::Array(vec!["Action".into(), "Sci-Fi".into()]),
    );
    let mut page = serde_json::Map::new();
    page.insert("pageInfo".to_string(), serde_json::Value::Object(page_info));
    page.insert("media".to_string(), serde_json::Value::Array(vec![serde_json::Value::Object(entry)]));
    let mut data = serde_json::Map::new();
    data.insert("Page".to_string(), serde_json::Value::Object(page));
    let mut root = serde_json::Map::new();
    root.insert("data".to_string(), serde_json::Value::Object(data));
    let json_data = serde_json::Value::Object(root);

    let response: AniListResponse =
        reply_from(&json_data).expect("Failed to deserialize mock AniList response");

    let page = response.data.page.unwrap();
    assert_eq!(page.media.len(), 1);
    assert_eq!(page.media[0].preferred_title(), "Cowboy Bebop");
    assert_eq!(page.media[0].genres, vec!["Action", "Sci-Fi"]);
    assert_eq!(page.page_info.total, 100);
    assert!(page.page_info.has_next_page);
}
