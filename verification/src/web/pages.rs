//! The pages of the web front end, as they are sent.

use vstd::prelude::*;

verus! {

/// The landing page.
pub const INDEX_PAGE: &'static str =
    "<!DOCTYPE html>\n<html>\n<head>\n    <title>Readwise Autosave</title>\n    <style>\n        body { font-family: system-ui, sans-serif; max-width: 600px; margin: 2rem auto; padding: 1rem; }\n        h1 { color: #1185fe; }\n        .btn { display: inline-block; background: #1185fe; color: white; padding: 0.75rem 1.5rem;\n               text-decoration: none; border-radius: 6px; margin-top: 1rem; }\n        .btn:hover { background: #0066cc; }\n    </style>\n</head>\n<body>\n    <h1>\u{1F4DA} Readwise Autosave</h1>\n    <p>Automatically save your Bluesky bookmarks to Readwise.</p>\n    <ul>\n        <li>Bookmark a post \u{2192} saves to Readwise Highlights</li>\n        <li>Bookmark a thread \u{2192} saves to Readwise Reader</li>\n        <li>DM posts to the bot for quick saving with notes</li>\n    </ul>\n    <a href=\"/auth/login\" class=\"btn\">Connect with Bluesky</a>\n</body>\n</html>";

/// The page with the sign-in form.
pub const LOGIN_PAGE: &'static str =
    "<!DOCTYPE html>\n<html>\n<head>\n    <title>Login - Readwise Autosave</title>\n    <style>\n        body { font-family: system-ui, sans-serif; max-width: 400px; margin: 2rem auto; padding: 1rem; }\n        h1 { color: #1185fe; }\n        form { margin-top: 1rem; }\n        label { display: block; margin-bottom: 0.5rem; font-weight: 500; }\n        input[type=\"text\"] {\n            width: 100%; padding: 0.75rem; font-size: 1rem;\n            border: 1px solid #ccc; border-radius: 6px; box-sizing: border-box;\n        }\n        input[type=\"text\"]:focus { outline: 2px solid #1185fe; border-color: #1185fe; }\n        .btn {\n            display: block; width: 100%; background: #1185fe; color: white;\n            padding: 0.75rem 1.5rem; font-size: 1rem; border: none;\n            border-radius: 6px; margin-top: 1rem; cursor: pointer;\n        }\n        .btn:hover { background: #0066cc; }\n        .help { color: #666; font-size: 0.875rem; margin-top: 0.5rem; }\n        .error { color: #d32f2f; background: #ffebee; padding: 0.75rem; border-radius: 6px; margin-bottom: 1rem; }\n    </style>\n</head>\n<body>\n    <h1>\u{1F98B} Login with Bluesky</h1>\n    <form method=\"POST\" action=\"/auth/login\">\n        <label for=\"handle\">Your Bluesky Handle</label>\n        <input type=\"text\" id=\"handle\" name=\"handle\" placeholder=\"username.bsky.social\" required>\n        <p class=\"help\">Enter your full handle (e.g., alice.bsky.social)</p>\n        <button type=\"submit\" class=\"btn\">Continue with Bluesky</button>\n    </form>\n    <p><a href=\"/\">\u{2190} Back to home</a></p>\n</body>\n</html>";

/// The page with the settings form.
pub const SETTINGS_PAGE: &'static str =
    "<!DOCTYPE html>\n<html>\n<head>\n    <title>Settings - Readwise Autosave</title>\n    <style>\n        body { font-family: system-ui, sans-serif; max-width: 600px; margin: 2rem auto; padding: 1rem; }\n        h1 { color: #1185fe; }\n        .form-group { margin: 1.5rem 0; }\n        label { display: block; margin-bottom: 0.5rem; font-weight: 500; }\n        input[type=\"text\"], input[type=\"password\"] {\n            width: 100%; padding: 0.5rem; border: 1px solid #ccc; border-radius: 4px;\n        }\n        .checkbox-group { display: flex; align-items: center; gap: 0.5rem; }\n        .btn { background: #1185fe; color: white; padding: 0.75rem 1.5rem;\n               border: none; border-radius: 6px; cursor: pointer; }\n        .btn:hover { background: #0066cc; }\n        .btn-danger { background: #dc3545; }\n        .btn-danger:hover { background: #c82333; }\n        .status { padding: 1rem; background: #e8f4fd; border-radius: 6px; margin-bottom: 1rem; }\n        .nav { margin-bottom: 2rem; }\n        .nav a { color: #1185fe; }\n    </style>\n</head>\n<body>\n    <div class=\"nav\">\n        <a href=\"/\">\u{2190} Back to Home</a> |\n        <form action=\"/auth/logout\" method=\"POST\" style=\"display: inline;\">\n            <button type=\"submit\" style=\"background: none; border: none; color: #dc3545; cursor: pointer;\">Logout</button>\n        </form>\n    </div>\n\n    <h1>\u{2699}\u{FE0F} Settings</h1>\n\n    <div class=\"status\">\n        <strong>Status:</strong> Not connected<br>\n        <small>Connect with Bluesky to enable bookmark sync.</small>\n    </div>\n\n    <form action=\"/api/settings\" method=\"POST\">\n        <div class=\"form-group\">\n            <label for=\"readwise_token\">Readwise Access Token</label>\n            <input type=\"password\" id=\"readwise_token\" name=\"readwise_token\"\n                   placeholder=\"Get from readwise.io/access_token\" required>\n            <small>Get your token at <a href=\"https://readwise.io/access_token\" target=\"_blank\">readwise.io/access_token</a></small>\n        </div>\n\n        <div class=\"form-group\">\n            <div class=\"checkbox-group\">\n                <input type=\"checkbox\" id=\"bookmark_sync\" name=\"bookmark_sync\" checked>\n                <label for=\"bookmark_sync\" style=\"margin-bottom: 0;\">Enable bookmark sync</label>\n            </div>\n            <small>Automatically save bookmarked posts to Readwise</small>\n        </div>\n\n        <div class=\"form-group\">\n            <div class=\"checkbox-group\">\n                <input type=\"checkbox\" id=\"extract_links\" name=\"extract_links\">\n                <label for=\"extract_links\" style=\"margin-bottom: 0;\">Extract links from posts</label>\n            </div>\n            <small>Also save URLs found in bookmarked posts to Readwise Reader</small>\n        </div>\n\n        <div class=\"form-group\">\n            <button type=\"submit\" class=\"btn\">Save Settings</button>\n        </div>\n    </form>\n</body>\n</html>";

/// The page that reports a failed start of sign-in, up to the message.
pub const LOGIN_ERROR_HEAD: &'static str =
    "<!DOCTYPE html>\n<html>\n<head>\n    <title>Login Error - Readwise Autosave</title>\n    <style>\n        body { font-family: system-ui, sans-serif; max-width: 400px; margin: 2rem auto; padding: 1rem; }\n        h1 { color: #d32f2f; }\n        .error { color: #d32f2f; background: #ffebee; padding: 0.75rem; border-radius: 6px; }\n        .btn { display: inline-block; background: #1185fe; color: white; padding: 0.75rem 1.5rem;\n                text-decoration: none; border-radius: 6px; margin-top: 1rem; }\n    </style>\n</head>\n<body>\n    <h1>Login Error</h1>\n    <div class=\"error\">";

/// The page that reports a failed start of sign-in, after the message.
pub const LOGIN_ERROR_TAIL: &'static str =
    "</div>\n    <a href=\"/auth/login\" class=\"btn\">Try Again</a>\n</body>\n</html>";

/// The page that reports a failed sign-in, up to the title of the error.
pub const CALLBACK_ERROR_HEAD: &'static str =
    "<!DOCTYPE html>\n<html>\n<head>\n    <title>Login Failed - Readwise Autosave</title>\n    <style>\n        body { font-family: system-ui, sans-serif; max-width: 400px; margin: 2rem auto; padding: 1rem; }\n        h1 { color: #d32f2f; }\n        .error { background: #ffebee; padding: 1rem; border-radius: 6px; margin: 1rem 0; }\n        .error-title { color: #d32f2f; font-weight: bold; margin: 0 0 0.5rem 0; }\n        .error-desc { color: #666; margin: 0; }\n        .btn { display: inline-block; background: #1185fe; color: white; padding: 0.75rem 1.5rem;\n                text-decoration: none; border-radius: 6px; }\n    </style>\n</head>\n<body>\n    <h1>Login Failed</h1>\n    <div class=\"error\">\n        <p class=\"error-title\">";

/// The page that reports a failed sign-in, between title and description.
pub const CALLBACK_ERROR_MIDDLE: &'static str =
    "</p>\n        <p class=\"error-desc\">";

/// The page that reports a failed sign-in, after the description.
pub const CALLBACK_ERROR_TAIL: &'static str =
    "</p>\n    </div>\n    <a href=\"/auth/login\" class=\"btn\">Try Again</a>\n</body>\n</html>";

} // verus!
