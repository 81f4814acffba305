//! The banner of a web server: some of its headers, and the title of the
//! page that it serves.
use crate::helpers::patterns::{first_groups, first_present, regex_first_groups, take_first};
use crate::helpers::text::{decimal, decimal_digits};
use crate::modules::banner_grabber::Banner;
use vstd::prelude::*;

verus! {

pub struct HttpBannerGrabber {
    hostname: String,
    port: u16,
    protocol: String,
}

/// The protocol that is spoken on a port: `http` on 80, `https` on 443.
pub open spec fn protocol_of(port: u16) -> Seq<char> {
    if port == 80 {
        "http"@
    } else {
        "https"@
    }
}

/// What a banner holds, as texts.
pub open spec fn banner_texts(pairs: Seq<(String, String)>) -> Seq<(Seq<char>, Seq<char>)> {
    Seq::new(pairs.len(), |i: int| (pairs[i].0@, pairs[i].1@))
}

/// The entry of a banner for a header: none where the header is missing.
pub open spec fn entry_of(key: Seq<char>, value: Option<String>) -> Seq<(Seq<char>, Seq<char>)> {
    match value {
        Some(text) => seq![(key, text@)],
        None => Seq::empty(),
    }
}

fn push_entry(pairs: &mut Vec<(String, String)>, key: &str, value: Option<String>)
    ensures
        banner_texts(final(pairs)@) == banner_texts(old(pairs)@) + entry_of(key@, value),
{
    match value {
        Some(text) => {
            pairs.push((String::from_str(key), text));
            assert(banner_texts(pairs@) =~= banner_texts(old(pairs)@) + entry_of(key@, value));
        },
        None => {
            assert(banner_texts(pairs@) =~= banner_texts(old(pairs)@) + entry_of(key@, value));
        },
    }
}

impl HttpBannerGrabber {
    /// A grabber for a web server. Only the ports 80 and 443 are served.
    pub fn new(hostname: String, port: u16) -> (r: Self)
        requires
            port == 80 || port == 443,
        ensures
            r.hostname() == hostname@,
            r.port() == port,
            r.protocol() == protocol_of(port),
    {
        let protocol = if port == 80 {
            String::from_str("http")
        } else {
            String::from_str("https")
        };
        HttpBannerGrabber { hostname, port, protocol }
    }

    pub closed spec fn hostname(&self) -> Seq<char> {
        self.hostname@
    }

    pub closed spec fn port(&self) -> u16 {
        self.port
    }

    pub closed spec fn protocol(&self) -> Seq<char> {
        self.protocol@
    }

    /// The address that is fetched: protocol, host and port.
    pub fn uri(&self) -> (r: String)
        ensures
            r@ == self.protocol() + "://"@ + self.hostname() + ":"@ + decimal_digits(
                self.port() as nat,
            ),
    {
        let mut r = self.protocol.clone();
        r.append("://");
        r.append(self.hostname.as_str());
        r.append(":");
        r.append(decimal(self.port as usize).as_str());
        r
    }

    /// The title of a page: what stands between the first `<title>` and the
    /// `</title>` that follows it, on one line.
    pub fn grab_title_tag(&self, response: String) -> (r: Option<String>)
        ensures
            r is Some == first_present(
                regex_first_groups("<title>(?P<title>.*?)</title>"@, response@),
            ) is Some,
            r is Some ==> Some(r->0@) == first_present(
                regex_first_groups("<title>(?P<title>.*?)</title>"@, response@),
            ),
    {
        take_first(first_groups("<title>(?P<title>.*?)</title>", response.as_str()))
    }

    /// The banner that the parts of a response make: the content type, the
    /// allowed methods, the server and the title, in this order, each where
    /// the response had it.
    pub fn assemble(
        &self,
        content_type: Option<String>,
        allow: Option<String>,
        server: Option<String>,
        title: Option<String>,
    ) -> (r: Banner)
        ensures
            banner_texts(r.0@) == entry_of("content_type"@, content_type) + entry_of(
                "allow"@,
                allow,
            ) + entry_of("server"@, server) + entry_of("title"@, title),
    {
        let mut pairs: Vec<(String, String)> = Vec::new();
        assert(banner_texts(pairs@) =~= Seq::empty());
        push_entry(&mut pairs, "content_type", content_type);
        push_entry(&mut pairs, "allow", allow);
        push_entry(&mut pairs, "server", server);
        push_entry(&mut pairs, "title", title);
        assert(banner_texts(pairs@) =~= entry_of("content_type"@, content_type) + entry_of(
            "allow"@,
            allow,
        ) + entry_of("server"@, server) + entry_of("title"@, title));
        Banner(pairs)
    }
}

} // verus!
