//! Outbound e-mail: the settings it is sent with and the messages the
//! authentication flows ask for. Handing a message to an SMTP server is
//! the caller's part.

use crate::config::EmailConfig;
use vstd::prelude::*;

verus! {

/// A message to be sent.
#[derive(Clone, Debug)]
pub struct OutgoingEmail {
    pub to: String,
    pub subject: String,
    pub html_body: String,
}

/// Holds the settings that messages are sent with.
#[derive(Clone, Debug)]
pub struct EmailService {
    pub config: EmailConfig,
}

impl EmailService {
    /// A service that sends with the given settings.
    pub fn new(config: EmailConfig) -> (s: EmailService)
        ensures
            s.config == config,
    {
        EmailService { config }
    }

    /// Whether the server is to be logged in to: only where a user name
    /// is configured.
    pub fn uses_credentials(&self) -> (r: bool)
        ensures
            r == (self.config.smtp_user@.len() > 0),
    {
        self.config.smtp_user.as_str().unicode_len() > 0
    }
}

/// The subject of the message that asks a new user to verify the address.
pub open spec fn verification_subject() -> Seq<char> {
    "欢迎来到我的博客 - 请验证您的邮箱地址"@
}

/// The body of that message, for a user and a verification token.
pub open spec fn verification_body(username: Seq<char>, token: Seq<char>) -> Seq<char> {
    "<p>您好, "@ + username
        + ",</p><p>感谢您的注册！请点击下面的链接来验证您的邮箱地址：</p><p><a href=\"http://localhost:3000/verify-email?token="@
        + token + "\">验证邮箱</a></p><p>此链接将在24小时后失效。</p>"@
}

/// The subject of the message that carries a password reset link.
pub open spec fn reset_subject() -> Seq<char> {
    "密码重置请求权"@
}

/// The body of that message, for a user and a reset token.
pub open spec fn reset_body(username: Seq<char>, token: Seq<char>) -> Seq<char> {
    "<p>您好, "@ + username
        + ",</p><p>我们收到了一个为您的账户重置密码的请求。请点击下面的链接来设置新密码：</p><p><a href=\"http://localhost:3000/reset-password?token="@
        + token + "\">重置密码</a></p><p>如果您没有请求重置密码，请忽略此邮件。此链接将在15分钟后失效。</p>"@
}

/// The message that asks a new user to verify the e-mail address.
pub fn verification_email(to: &str, username: &str, token: &str) -> (m: OutgoingEmail)
    ensures
        m.to@ == to@,
        m.subject@ == verification_subject(),
        m.html_body@ == verification_body(username@, token@),
{
    let mut body = "<p>您好, ".to_owned();
    body.append(username);
    body.append(
        ",</p><p>感谢您的注册！请点击下面的链接来验证您的邮箱地址：</p><p><a href=\"http://localhost:3000/verify-email?token=",
    );
    body.append(token);
    body.append("\">验证邮箱</a></p><p>此链接将在24小时后失效。</p>");
    OutgoingEmail {
        to: to.to_owned(),
        subject: "欢迎来到我的博客 - 请验证您的邮箱地址".to_owned(),
        html_body: body,
    }
}

/// The message that carries a password reset link.
pub fn reset_email(to: &str, username: &str, token: &str) -> (m: OutgoingEmail)
    ensures
        m.to@ == to@,
        m.subject@ == reset_subject(),
        m.html_body@ == reset_body(username@, token@),
{
    let mut body = "<p>您好, ".to_owned();
    body.append(username);
    body.append(
        ",</p><p>我们收到了一个为您的账户重置密码的请求。请点击下面的链接来设置新密码：</p><p><a href=\"http://localhost:3000/reset-password?token=",
    );
    body.append(token);
    body.append(
        "\">重置密码</a></p><p>如果您没有请求重置密码，请忽略此邮件。此链接将在15分钟后失效。</p>",
    );
    OutgoingEmail { to: to.to_owned(), subject: "密码重置请求权".to_owned(), html_body: body }
}

} // verus!
