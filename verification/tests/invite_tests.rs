use ssh_server::brand::{BrandColors, Rgb};
use ssh_server::invite::{full_endpoint, invite_from_response, invite_url, invites_path, InviteError};

#[test]
fn full_endpoint_prefixes_the_api_base() {
    assert_eq!(
        full_endpoint("/channels/123/invites"),
        "https://discord.com/api/v10/channels/123/invites"
    );
    assert_eq!(full_endpoint(""), "https://discord.com/api/v10");
}

#[test]
fn invites_path_embeds_the_channel() {
    assert_eq!(invites_path("42"), "/channels/42/invites");
}

#[test]
fn invite_url_embeds_the_code() {
    assert_eq!(invite_url("abc123"), "https://discord.gg/abc123");
}

#[test]
fn successful_response_with_code_yields_link() {
    assert_eq!(
        invite_from_response(true, Some("zzz")),
        Ok("https://discord.gg/zzz".to_string())
    );
}

#[test]
fn successful_response_without_code_is_missing_code() {
    assert_eq!(invite_from_response(true, None), Err(InviteError::MissingCode));
}

#[test]
fn failed_response_is_api_error() {
    assert_eq!(invite_from_response(false, Some("zzz")), Err(InviteError::ApiError));
    assert_eq!(invite_from_response(false, None), Err(InviteError::ApiError));
}

#[test]
fn brand_palette_values() {
    assert_eq!(BrandColors::Dark.color(), Rgb { r: 37, g: 35, b: 34 });
    assert_eq!(BrandColors::Light.color(), Rgb { r: 244, g: 241, b: 230 });
    assert_eq!(BrandColors::Lavender.color(), Rgb { r: 195, g: 187, b: 227 });
    assert_eq!(BrandColors::Peach.color(), Rgb { r: 250, g: 209, b: 163 });
    assert_eq!(BrandColors::Mint.color(), Rgb { r: 204, g: 235, b: 177 });
    assert_eq!(BrandColors::Coral.color(), Rgb { r: 240, g: 119, b: 119 });
    assert_eq!(BrandColors::Gray.color(), Rgb { r: 225, g: 225, b: 225 });
    assert_eq!(BrandColors::DarkGray.color(), Rgb { r: 124, g: 124, b: 124 });
}
