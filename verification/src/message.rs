//! The messages that a session takes in: a sender prefix, a command or a
//! numeric reply, arguments and trailing text.

use vstd::prelude::*;
use crate::mode::{mode_views, text_of, Mode, ModeView};

verus! {

/// A numeric reply of the server.
#[allow(non_camel_case_types)]
#[derive(Clone, Copy, Debug, PartialEq, Eq, Structural)]
pub enum Response {
    RPL_WELCOME,
    RPL_YOURHOST,
    RPL_CREATED,
    RPL_MYINFO,
    RPL_ISUPPORT,
    RPL_BOUNCE,
    RPL_NONE,
    RPL_USERHOST,
    RPL_ISON,
    RPL_AWAY,
    RPL_UNAWAY,
    RPL_NOWAWAY,
    RPL_WHOISUSER,
    RPL_WHOISSERVER,
    RPL_WHOISOPERATOR,
    RPL_WHOISIDLE,
    RPL_ENDOFWHOIS,
    RPL_WHOISCHANNELS,
    RPL_WHOWASUSER,
    RPL_ENDOFWHOWAS,
    RPL_LISTSTART,
    RPL_LIST,
    RPL_LISTEND,
    RPL_UNIQOPIS,
    RPL_CHANNELMODEIS,
    RPL_NOTOPIC,
    RPL_TOPIC,
    RPL_TOPICWHOTIME,
    RPL_INVITING,
    RPL_SUMMONING,
    RPL_INVITELIST,
    RPL_ENDOFINVITELIST,
    RPL_EXCEPTLIST,
    RPL_ENDOFEXCEPTLIST,
    RPL_VERSION,
    RPL_WHOREPLY,
    RPL_ENDOFWHO,
    RPL_NAMREPLY,
    RPL_ENDOFNAMES,
    RPL_LINKS,
    RPL_ENDOFLINKS,
    RPL_BANLIST,
    RPL_ENDOFBANLIST,
    RPL_INFO,
    RPL_ENDOFINFO,
    RPL_MOTDSTART,
    RPL_MOTD,
    RPL_ENDOFMOTD,
    RPL_YOUREOPER,
    RPL_REHASHING,
    RPL_YOURESERVICE,
    RPL_TIME,
    RPL_USERSSTART,
    RPL_USERS,
    RPL_ENDOFUSERS,
    RPL_NOUSERS,
    RPL_HOSTHIDDEN,
    RPL_TRACELINK,
    RPL_TRACECONNECTING,
    RPL_TRACEHANDSHAKE,
    RPL_TRACEUKNOWN,
    RPL_TRACEOPERATOR,
    RPL_TRACEUSER,
    RPL_TRACESERVER,
    RPL_TRACESERVICE,
    RPL_TRACENEWTYPE,
    RPL_TRACECLASS,
    RPL_TRACERECONNECT,
    RPL_TRACELOG,
    RPL_TRACEEND,
    RPL_STATSLINKINFO,
    RPL_STATSCOMMANDS,
    RPL_ENDOFSTATS,
    RPL_STATSUPTIME,
    RPL_STATSOLINE,
    RPL_UMODEIS,
    RPL_SERVLIST,
    RPL_SERVLISTEND,
    RPL_LUSERCLIENT,
    RPL_LUSEROP,
    RPL_LUSERUNKNOWN,
    RPL_LUSERCHANNELS,
    RPL_LUSERME,
    RPL_ADMINME,
    RPL_ADMINLOC1,
    RPL_ADMINLOC2,
    RPL_ADMINEMAIL,
    RPL_TRYAGAIN,
    RPL_LOCALUSERS,
    RPL_GLOBALUSERS,
    RPL_WHOISCERTFP,
    RPL_MONONLINE,
    RPL_MONOFFLINE,
    RPL_MONLIST,
    RPL_ENDOFMONLIST,
    RPL_WHOISKEYVALUE,
    RPL_KEYVALUE,
    RPL_METADATAEND,
    RPL_LOGGEDIN,
    RPL_LOGGEDOUT,
    RPL_SASLSUCCESS,
    RPL_SASLMECHS,
    ERR_UNKNOWNERROR,
    ERR_NOSUCHNICK,
    ERR_NOSUCHSERVER,
    ERR_NOSUCHCHANNEL,
    ERR_CANNOTSENDTOCHAN,
    ERR_TOOMANYCHANNELS,
    ERR_WASNOSUCHNICK,
    ERR_TOOMANYTARGETS,
    ERR_NOSUCHSERVICE,
    ERR_NOORIGIN,
    ERR_NORECIPIENT,
    ERR_NOTEXTTOSEND,
    ERR_NOTOPLEVEL,
    ERR_WILDTOPLEVEL,
    ERR_BADMASK,
    ERR_UNKNOWNCOMMAND,
    ERR_NOMOTD,
    ERR_NOADMININFO,
    ERR_FILEERROR,
    ERR_NONICKNAMEGIVEN,
    ERR_ERRONEOUSNICKNAME,
    ERR_NICKNAMEINUSE,
    ERR_NICKCOLLISION,
    ERR_UNAVAILRESOURCE,
    ERR_USERNOTINCHANNEL,
    ERR_NOTONCHANNEL,
    ERR_USERONCHANNEL,
    ERR_NOLOGIN,
    ERR_SUMMONDISABLED,
    ERR_USERSDISABLED,
    ERR_NOTREGISTERED,
    ERR_NEEDMOREPARAMS,
    ERR_ALREADYREGISTRED,
    ERR_NOPERMFORHOST,
    ERR_PASSWDMISMATCH,
    ERR_YOUREBANNEDCREEP,
    ERR_YOUWILLBEBANNED,
    ERR_KEYSET,
    ERR_CHANNELISFULL,
    ERR_UNKNOWNMODE,
    ERR_INVITEONLYCHAN,
    ERR_BANNEDFROMCHAN,
    ERR_BADCHANNELKEY,
    ERR_BADCHANMASK,
    ERR_NOCHANMODES,
    ERR_BANLISTFULL,
    ERR_NOPRIVILEGES,
    ERR_CHANOPRIVSNEEDED,
    ERR_CANTKILLSERVER,
    ERR_RESTRICTED,
    ERR_UNIQOPPRIVSNEEDED,
    ERR_NOOPERHOST,
    ERR_UMODEUNKNOWNFLAG,
    ERR_USERSDONTMATCH,
    ERR_NOPRIVS,
    ERR_MONLISTFULL,
    ERR_METADATALIMIT,
    ERR_TARGETINVALID,
    ERR_NOMATCHINGKEY,
    ERR_KEYINVALID,
    ERR_KEYNOTSET,
    ERR_KEYNOPERMISSION,
    ERR_NICKLOCKED,
    ERR_SASLFAIL,
    ERR_SASLTOOLONG,
    ERR_SASLABORT,
    ERR_SASLALREADY,
}

/// The name under which a numeric reply is reported.
pub open spec fn response_name(response: Response) -> Seq<char> {
    match response {
        Response::RPL_WELCOME => "RPL_WELCOME"@,
        Response::RPL_YOURHOST => "RPL_YOURHOST"@,
        Response::RPL_CREATED => "RPL_CREATED"@,
        Response::RPL_MYINFO => "RPL_MYINFO"@,
        Response::RPL_ISUPPORT => "RPL_ISUPPORT"@,
        Response::RPL_BOUNCE => "RPL_BOUNCE"@,
        Response::RPL_NONE => "RPL_NONE"@,
        Response::RPL_USERHOST => "RPL_USERHOST"@,
        Response::RPL_ISON => "RPL_ISON"@,
        Response::RPL_AWAY => "RPL_AWAY"@,
        Response::RPL_UNAWAY => "RPL_UNAWAY"@,
        Response::RPL_NOWAWAY => "RPL_NOWAWAY"@,
        Response::RPL_WHOISUSER => "RPL_WHOISUSER"@,
        Response::RPL_WHOISSERVER => "RPL_WHOISSERVER"@,
        Response::RPL_WHOISOPERATOR => "RPL_WHOISOPERATOR"@,
        Response::RPL_WHOISIDLE => "RPL_WHOISIDLE"@,
        Response::RPL_ENDOFWHOIS => "RPL_ENDOFWHOIS"@,
        Response::RPL_WHOISCHANNELS => "RPL_WHOISCHANNELS"@,
        Response::RPL_WHOWASUSER => "RPL_WHOWASUSER"@,
        Response::RPL_ENDOFWHOWAS => "RPL_ENDOFWHOWAS"@,
        Response::RPL_LISTSTART => "RPL_LISTSTART"@,
        Response::RPL_LIST => "RPL_LIST"@,
        Response::RPL_LISTEND => "RPL_LISTEND"@,
        Response::RPL_UNIQOPIS => "RPL_UNIQOPIS"@,
        Response::RPL_CHANNELMODEIS => "RPL_CHANNELMODEIS"@,
        Response::RPL_NOTOPIC => "RPL_NOTOPIC"@,
        Response::RPL_TOPIC => "RPL_TOPIC"@,
        Response::RPL_TOPICWHOTIME => "RPL_TOPICWHOTIME"@,
        Response::RPL_INVITING => "RPL_INVITING"@,
        Response::RPL_SUMMONING => "RPL_SUMMONING"@,
        Response::RPL_INVITELIST => "RPL_INVITELIST"@,
        Response::RPL_ENDOFINVITELIST => "RPL_ENDOFINVITELIST"@,
        Response::RPL_EXCEPTLIST => "RPL_EXCEPTLIST"@,
        Response::RPL_ENDOFEXCEPTLIST => "RPL_ENDOFEXCEPTLIST"@,
        Response::RPL_VERSION => "RPL_VERSION"@,
        Response::RPL_WHOREPLY => "RPL_WHOREPLY"@,
        Response::RPL_ENDOFWHO => "RPL_ENDOFWHO"@,
        Response::RPL_NAMREPLY => "RPL_NAMREPLY"@,
        Response::RPL_ENDOFNAMES => "RPL_ENDOFNAMES"@,
        Response::RPL_LINKS => "RPL_LINKS"@,
        Response::RPL_ENDOFLINKS => "RPL_ENDOFLINKS"@,
        Response::RPL_BANLIST => "RPL_BANLIST"@,
        Response::RPL_ENDOFBANLIST => "RPL_ENDOFBANLIST"@,
        Response::RPL_INFO => "RPL_INFO"@,
        Response::RPL_ENDOFINFO => "RPL_ENDOFINFO"@,
        Response::RPL_MOTDSTART => "RPL_MOTDSTART"@,
        Response::RPL_MOTD => "RPL_MOTD"@,
        Response::RPL_ENDOFMOTD => "RPL_ENDOFMOTD"@,
        Response::RPL_YOUREOPER => "RPL_YOUREOPER"@,
        Response::RPL_REHASHING => "RPL_REHASHING"@,
        Response::RPL_YOURESERVICE => "RPL_YOURESERVICE"@,
        Response::RPL_TIME => "RPL_TIME"@,
        Response::RPL_USERSSTART => "RPL_USERSSTART"@,
        Response::RPL_USERS => "RPL_USERS"@,
        Response::RPL_ENDOFUSERS => "RPL_ENDOFUSERS"@,
        Response::RPL_NOUSERS => "RPL_NOUSERS"@,
        Response::RPL_HOSTHIDDEN => "RPL_HOSTHIDDEN"@,
        Response::RPL_TRACELINK => "RPL_TRACELINK"@,
        Response::RPL_TRACECONNECTING => "RPL_TRACECONNECTING"@,
        Response::RPL_TRACEHANDSHAKE => "RPL_TRACEHANDSHAKE"@,
        Response::RPL_TRACEUKNOWN => "RPL_TRACEUKNOWN"@,
        Response::RPL_TRACEOPERATOR => "RPL_TRACEOPERATOR"@,
        Response::RPL_TRACEUSER => "RPL_TRACEUSER"@,
        Response::RPL_TRACESERVER => "RPL_TRACESERVER"@,
        Response::RPL_TRACESERVICE => "RPL_TRACESERVICE"@,
        Response::RPL_TRACENEWTYPE => "RPL_TRACENEWTYPE"@,
        Response::RPL_TRACECLASS => "RPL_TRACECLASS"@,
        Response::RPL_TRACERECONNECT => "RPL_TRACERECONNECT"@,
        Response::RPL_TRACELOG => "RPL_TRACELOG"@,
        Response::RPL_TRACEEND => "RPL_TRACEEND"@,
        Response::RPL_STATSLINKINFO => "RPL_STATSLINKINFO"@,
        Response::RPL_STATSCOMMANDS => "RPL_STATSCOMMANDS"@,
        Response::RPL_ENDOFSTATS => "RPL_ENDOFSTATS"@,
        Response::RPL_STATSUPTIME => "RPL_STATSUPTIME"@,
        Response::RPL_STATSOLINE => "RPL_STATSOLINE"@,
        Response::RPL_UMODEIS => "RPL_UMODEIS"@,
        Response::RPL_SERVLIST => "RPL_SERVLIST"@,
        Response::RPL_SERVLISTEND => "RPL_SERVLISTEND"@,
        Response::RPL_LUSERCLIENT => "RPL_LUSERCLIENT"@,
        Response::RPL_LUSEROP => "RPL_LUSEROP"@,
        Response::RPL_LUSERUNKNOWN => "RPL_LUSERUNKNOWN"@,
        Response::RPL_LUSERCHANNELS => "RPL_LUSERCHANNELS"@,
        Response::RPL_LUSERME => "RPL_LUSERME"@,
        Response::RPL_ADMINME => "RPL_ADMINME"@,
        Response::RPL_ADMINLOC1 => "RPL_ADMINLOC1"@,
        Response::RPL_ADMINLOC2 => "RPL_ADMINLOC2"@,
        Response::RPL_ADMINEMAIL => "RPL_ADMINEMAIL"@,
        Response::RPL_TRYAGAIN => "RPL_TRYAGAIN"@,
        Response::RPL_LOCALUSERS => "RPL_LOCALUSERS"@,
        Response::RPL_GLOBALUSERS => "RPL_GLOBALUSERS"@,
        Response::RPL_WHOISCERTFP => "RPL_WHOISCERTFP"@,
        Response::RPL_MONONLINE => "RPL_MONONLINE"@,
        Response::RPL_MONOFFLINE => "RPL_MONOFFLINE"@,
        Response::RPL_MONLIST => "RPL_MONLIST"@,
        Response::RPL_ENDOFMONLIST => "RPL_ENDOFMONLIST"@,
        Response::RPL_WHOISKEYVALUE => "RPL_WHOISKEYVALUE"@,
        Response::RPL_KEYVALUE => "RPL_KEYVALUE"@,
        Response::RPL_METADATAEND => "RPL_METADATAEND"@,
        Response::RPL_LOGGEDIN => "RPL_LOGGEDIN"@,
        Response::RPL_LOGGEDOUT => "RPL_LOGGEDOUT"@,
        Response::RPL_SASLSUCCESS => "RPL_SASLSUCCESS"@,
        Response::RPL_SASLMECHS => "RPL_SASLMECHS"@,
        Response::ERR_UNKNOWNERROR => "ERR_UNKNOWNERROR"@,
        Response::ERR_NOSUCHNICK => "ERR_NOSUCHNICK"@,
        Response::ERR_NOSUCHSERVER => "ERR_NOSUCHSERVER"@,
        Response::ERR_NOSUCHCHANNEL => "ERR_NOSUCHCHANNEL"@,
        Response::ERR_CANNOTSENDTOCHAN => "ERR_CANNOTSENDTOCHAN"@,
        Response::ERR_TOOMANYCHANNELS => "ERR_TOOMANYCHANNELS"@,
        Response::ERR_WASNOSUCHNICK => "ERR_WASNOSUCHNICK"@,
        Response::ERR_TOOMANYTARGETS => "ERR_TOOMANYTARGETS"@,
        Response::ERR_NOSUCHSERVICE => "ERR_NOSUCHSERVICE"@,
        Response::ERR_NOORIGIN => "ERR_NOORIGIN"@,
        Response::ERR_NORECIPIENT => "ERR_NORECIPIENT"@,
        Response::ERR_NOTEXTTOSEND => "ERR_NOTEXTTOSEND"@,
        Response::ERR_NOTOPLEVEL => "ERR_NOTOPLEVEL"@,
        Response::ERR_WILDTOPLEVEL => "ERR_WILDTOPLEVEL"@,
        Response::ERR_BADMASK => "ERR_BADMASK"@,
        Response::ERR_UNKNOWNCOMMAND => "ERR_UNKNOWNCOMMAND"@,
        Response::ERR_NOMOTD => "ERR_NOMOTD"@,
        Response::ERR_NOADMININFO => "ERR_NOADMININFO"@,
        Response::ERR_FILEERROR => "ERR_FILEERROR"@,
        Response::ERR_NONICKNAMEGIVEN => "ERR_NONICKNAMEGIVEN"@,
        Response::ERR_ERRONEOUSNICKNAME => "ERR_ERRONEOUSNICKNAME"@,
        Response::ERR_NICKNAMEINUSE => "ERR_NICKNAMEINUSE"@,
        Response::ERR_NICKCOLLISION => "ERR_NICKCOLLISION"@,
        Response::ERR_UNAVAILRESOURCE => "ERR_UNAVAILRESOURCE"@,
        Response::ERR_USERNOTINCHANNEL => "ERR_USERNOTINCHANNEL"@,
        Response::ERR_NOTONCHANNEL => "ERR_NOTONCHANNEL"@,
        Response::ERR_USERONCHANNEL => "ERR_USERONCHANNEL"@,
        Response::ERR_NOLOGIN => "ERR_NOLOGIN"@,
        Response::ERR_SUMMONDISABLED => "ERR_SUMMONDISABLED"@,
        Response::ERR_USERSDISABLED => "ERR_USERSDISABLED"@,
        Response::ERR_NOTREGISTERED => "ERR_NOTREGISTERED"@,
        Response::ERR_NEEDMOREPARAMS => "ERR_NEEDMOREPARAMS"@,
        Response::ERR_ALREADYREGISTRED => "ERR_ALREADYREGISTRED"@,
        Response::ERR_NOPERMFORHOST => "ERR_NOPERMFORHOST"@,
        Response::ERR_PASSWDMISMATCH => "ERR_PASSWDMISMATCH"@,
        Response::ERR_YOUREBANNEDCREEP => "ERR_YOUREBANNEDCREEP"@,
        Response::ERR_YOUWILLBEBANNED => "ERR_YOUWILLBEBANNED"@,
        Response::ERR_KEYSET => "ERR_KEYSET"@,
        Response::ERR_CHANNELISFULL => "ERR_CHANNELISFULL"@,
        Response::ERR_UNKNOWNMODE => "ERR_UNKNOWNMODE"@,
        Response::ERR_INVITEONLYCHAN => "ERR_INVITEONLYCHAN"@,
        Response::ERR_BANNEDFROMCHAN => "ERR_BANNEDFROMCHAN"@,
        Response::ERR_BADCHANNELKEY => "ERR_BADCHANNELKEY"@,
        Response::ERR_BADCHANMASK => "ERR_BADCHANMASK"@,
        Response::ERR_NOCHANMODES => "ERR_NOCHANMODES"@,
        Response::ERR_BANLISTFULL => "ERR_BANLISTFULL"@,
        Response::ERR_NOPRIVILEGES => "ERR_NOPRIVILEGES"@,
        Response::ERR_CHANOPRIVSNEEDED => "ERR_CHANOPRIVSNEEDED"@,
        Response::ERR_CANTKILLSERVER => "ERR_CANTKILLSERVER"@,
        Response::ERR_RESTRICTED => "ERR_RESTRICTED"@,
        Response::ERR_UNIQOPPRIVSNEEDED => "ERR_UNIQOPPRIVSNEEDED"@,
        Response::ERR_NOOPERHOST => "ERR_NOOPERHOST"@,
        Response::ERR_UMODEUNKNOWNFLAG => "ERR_UMODEUNKNOWNFLAG"@,
        Response::ERR_USERSDONTMATCH => "ERR_USERSDONTMATCH"@,
        Response::ERR_NOPRIVS => "ERR_NOPRIVS"@,
        Response::ERR_MONLISTFULL => "ERR_MONLISTFULL"@,
        Response::ERR_METADATALIMIT => "ERR_METADATALIMIT"@,
        Response::ERR_TARGETINVALID => "ERR_TARGETINVALID"@,
        Response::ERR_NOMATCHINGKEY => "ERR_NOMATCHINGKEY"@,
        Response::ERR_KEYINVALID => "ERR_KEYINVALID"@,
        Response::ERR_KEYNOTSET => "ERR_KEYNOTSET"@,
        Response::ERR_KEYNOPERMISSION => "ERR_KEYNOPERMISSION"@,
        Response::ERR_NICKLOCKED => "ERR_NICKLOCKED"@,
        Response::ERR_SASLFAIL => "ERR_SASLFAIL"@,
        Response::ERR_SASLTOOLONG => "ERR_SASLTOOLONG"@,
        Response::ERR_SASLABORT => "ERR_SASLABORT"@,
        Response::ERR_SASLALREADY => "ERR_SASLALREADY"@,
    }
}

impl Response {
    /// The name under which this reply is reported.
    pub fn name(&self) -> (name: String)
        ensures
            name@ == response_name(*self),
    {
        match self {
            Response::RPL_WELCOME => "RPL_WELCOME".to_owned(),
            Response::RPL_YOURHOST => "RPL_YOURHOST".to_owned(),
            Response::RPL_CREATED => "RPL_CREATED".to_owned(),
            Response::RPL_MYINFO => "RPL_MYINFO".to_owned(),
            Response::RPL_ISUPPORT => "RPL_ISUPPORT".to_owned(),
            Response::RPL_BOUNCE => "RPL_BOUNCE".to_owned(),
            Response::RPL_NONE => "RPL_NONE".to_owned(),
            Response::RPL_USERHOST => "RPL_USERHOST".to_owned(),
            Response::RPL_ISON => "RPL_ISON".to_owned(),
            Response::RPL_AWAY => "RPL_AWAY".to_owned(),
            Response::RPL_UNAWAY => "RPL_UNAWAY".to_owned(),
            Response::RPL_NOWAWAY => "RPL_NOWAWAY".to_owned(),
            Response::RPL_WHOISUSER => "RPL_WHOISUSER".to_owned(),
            Response::RPL_WHOISSERVER => "RPL_WHOISSERVER".to_owned(),
            Response::RPL_WHOISOPERATOR => "RPL_WHOISOPERATOR".to_owned(),
            Response::RPL_WHOISIDLE => "RPL_WHOISIDLE".to_owned(),
            Response::RPL_ENDOFWHOIS => "RPL_ENDOFWHOIS".to_owned(),
            Response::RPL_WHOISCHANNELS => "RPL_WHOISCHANNELS".to_owned(),
            Response::RPL_WHOWASUSER => "RPL_WHOWASUSER".to_owned(),
            Response::RPL_ENDOFWHOWAS => "RPL_ENDOFWHOWAS".to_owned(),
            Response::RPL_LISTSTART => "RPL_LISTSTART".to_owned(),
            Response::RPL_LIST => "RPL_LIST".to_owned(),
            Response::RPL_LISTEND => "RPL_LISTEND".to_owned(),
            Response::RPL_UNIQOPIS => "RPL_UNIQOPIS".to_owned(),
            Response::RPL_CHANNELMODEIS => "RPL_CHANNELMODEIS".to_owned(),
            Response::RPL_NOTOPIC => "RPL_NOTOPIC".to_owned(),
            Response::RPL_TOPIC => "RPL_TOPIC".to_owned(),
            Response::RPL_TOPICWHOTIME => "RPL_TOPICWHOTIME".to_owned(),
            Response::RPL_INVITING => "RPL_INVITING".to_owned(),
            Response::RPL_SUMMONING => "RPL_SUMMONING".to_owned(),
            Response::RPL_INVITELIST => "RPL_INVITELIST".to_owned(),
            Response::RPL_ENDOFINVITELIST => "RPL_ENDOFINVITELIST".to_owned(),
            Response::RPL_EXCEPTLIST => "RPL_EXCEPTLIST".to_owned(),
            Response::RPL_ENDOFEXCEPTLIST => "RPL_ENDOFEXCEPTLIST".to_owned(),
            Response::RPL_VERSION => "RPL_VERSION".to_owned(),
            Response::RPL_WHOREPLY => "RPL_WHOREPLY".to_owned(),
            Response::RPL_ENDOFWHO => "RPL_ENDOFWHO".to_owned(),
            Response::RPL_NAMREPLY => "RPL_NAMREPLY".to_owned(),
            Response::RPL_ENDOFNAMES => "RPL_ENDOFNAMES".to_owned(),
            Response::RPL_LINKS => "RPL_LINKS".to_owned(),
            Response::RPL_ENDOFLINKS => "RPL_ENDOFLINKS".to_owned(),
            Response::RPL_BANLIST => "RPL_BANLIST".to_owned(),
            Response::RPL_ENDOFBANLIST => "RPL_ENDOFBANLIST".to_owned(),
            Response::RPL_INFO => "RPL_INFO".to_owned(),
            Response::RPL_ENDOFINFO => "RPL_ENDOFINFO".to_owned(),
            Response::RPL_MOTDSTART => "RPL_MOTDSTART".to_owned(),
            Response::RPL_MOTD => "RPL_MOTD".to_owned(),
            Response::RPL_ENDOFMOTD => "RPL_ENDOFMOTD".to_owned(),
            Response::RPL_YOUREOPER => "RPL_YOUREOPER".to_owned(),
            Response::RPL_REHASHING => "RPL_REHASHING".to_owned(),
            Response::RPL_YOURESERVICE => "RPL_YOURESERVICE".to_owned(),
            Response::RPL_TIME => "RPL_TIME".to_owned(),
            Response::RPL_USERSSTART => "RPL_USERSSTART".to_owned(),
            Response::RPL_USERS => "RPL_USERS".to_owned(),
            Response::RPL_ENDOFUSERS => "RPL_ENDOFUSERS".to_owned(),
            Response::RPL_NOUSERS => "RPL_NOUSERS".to_owned(),
            Response::RPL_HOSTHIDDEN => "RPL_HOSTHIDDEN".to_owned(),
            Response::RPL_TRACELINK => "RPL_TRACELINK".to_owned(),
            Response::RPL_TRACECONNECTING => "RPL_TRACECONNECTING".to_owned(),
            Response::RPL_TRACEHANDSHAKE => "RPL_TRACEHANDSHAKE".to_owned(),
            Response::RPL_TRACEUKNOWN => "RPL_TRACEUKNOWN".to_owned(),
            Response::RPL_TRACEOPERATOR => "RPL_TRACEOPERATOR".to_owned(),
            Response::RPL_TRACEUSER => "RPL_TRACEUSER".to_owned(),
            Response::RPL_TRACESERVER => "RPL_TRACESERVER".to_owned(),
            Response::RPL_TRACESERVICE => "RPL_TRACESERVICE".to_owned(),
            Response::RPL_TRACENEWTYPE => "RPL_TRACENEWTYPE".to_owned(),
            Response::RPL_TRACECLASS => "RPL_TRACECLASS".to_owned(),
            Response::RPL_TRACERECONNECT => "RPL_TRACERECONNECT".to_owned(),
            Response::RPL_TRACELOG => "RPL_TRACELOG".to_owned(),
            Response::RPL_TRACEEND => "RPL_TRACEEND".to_owned(),
            Response::RPL_STATSLINKINFO => "RPL_STATSLINKINFO".to_owned(),
            Response::RPL_STATSCOMMANDS => "RPL_STATSCOMMANDS".to_owned(),
            Response::RPL_ENDOFSTATS => "RPL_ENDOFSTATS".to_owned(),
            Response::RPL_STATSUPTIME => "RPL_STATSUPTIME".to_owned(),
            Response::RPL_STATSOLINE => "RPL_STATSOLINE".to_owned(),
            Response::RPL_UMODEIS => "RPL_UMODEIS".to_owned(),
            Response::RPL_SERVLIST => "RPL_SERVLIST".to_owned(),
            Response::RPL_SERVLISTEND => "RPL_SERVLISTEND".to_owned(),
            Response::RPL_LUSERCLIENT => "RPL_LUSERCLIENT".to_owned(),
            Response::RPL_LUSEROP => "RPL_LUSEROP".to_owned(),
            Response::RPL_LUSERUNKNOWN => "RPL_LUSERUNKNOWN".to_owned(),
            Response::RPL_LUSERCHANNELS => "RPL_LUSERCHANNELS".to_owned(),
            Response::RPL_LUSERME => "RPL_LUSERME".to_owned(),
            Response::RPL_ADMINME => "RPL_ADMINME".to_owned(),
            Response::RPL_ADMINLOC1 => "RPL_ADMINLOC1".to_owned(),
            Response::RPL_ADMINLOC2 => "RPL_ADMINLOC2".to_owned(),
            Response::RPL_ADMINEMAIL => "RPL_ADMINEMAIL".to_owned(),
            Response::RPL_TRYAGAIN => "RPL_TRYAGAIN".to_owned(),
            Response::RPL_LOCALUSERS => "RPL_LOCALUSERS".to_owned(),
            Response::RPL_GLOBALUSERS => "RPL_GLOBALUSERS".to_owned(),
            Response::RPL_WHOISCERTFP => "RPL_WHOISCERTFP".to_owned(),
            Response::RPL_MONONLINE => "RPL_MONONLINE".to_owned(),
            Response::RPL_MONOFFLINE => "RPL_MONOFFLINE".to_owned(),
            Response::RPL_MONLIST => "RPL_MONLIST".to_owned(),
            Response::RPL_ENDOFMONLIST => "RPL_ENDOFMONLIST".to_owned(),
            Response::RPL_WHOISKEYVALUE => "RPL_WHOISKEYVALUE".to_owned(),
            Response::RPL_KEYVALUE => "RPL_KEYVALUE".to_owned(),
            Response::RPL_METADATAEND => "RPL_METADATAEND".to_owned(),
            Response::RPL_LOGGEDIN => "RPL_LOGGEDIN".to_owned(),
            Response::RPL_LOGGEDOUT => "RPL_LOGGEDOUT".to_owned(),
            Response::RPL_SASLSUCCESS => "RPL_SASLSUCCESS".to_owned(),
            Response::RPL_SASLMECHS => "RPL_SASLMECHS".to_owned(),
            Response::ERR_UNKNOWNERROR => "ERR_UNKNOWNERROR".to_owned(),
            Response::ERR_NOSUCHNICK => "ERR_NOSUCHNICK".to_owned(),
            Response::ERR_NOSUCHSERVER => "ERR_NOSUCHSERVER".to_owned(),
            Response::ERR_NOSUCHCHANNEL => "ERR_NOSUCHCHANNEL".to_owned(),
            Response::ERR_CANNOTSENDTOCHAN => "ERR_CANNOTSENDTOCHAN".to_owned(),
            Response::ERR_TOOMANYCHANNELS => "ERR_TOOMANYCHANNELS".to_owned(),
            Response::ERR_WASNOSUCHNICK => "ERR_WASNOSUCHNICK".to_owned(),
            Response::ERR_TOOMANYTARGETS => "ERR_TOOMANYTARGETS".to_owned(),
            Response::ERR_NOSUCHSERVICE => "ERR_NOSUCHSERVICE".to_owned(),
            Response::ERR_NOORIGIN => "ERR_NOORIGIN".to_owned(),
            Response::ERR_NORECIPIENT => "ERR_NORECIPIENT".to_owned(),
            Response::ERR_NOTEXTTOSEND => "ERR_NOTEXTTOSEND".to_owned(),
            Response::ERR_NOTOPLEVEL => "ERR_NOTOPLEVEL".to_owned(),
            Response::ERR_WILDTOPLEVEL => "ERR_WILDTOPLEVEL".to_owned(),
            Response::ERR_BADMASK => "ERR_BADMASK".to_owned(),
            Response::ERR_UNKNOWNCOMMAND => "ERR_UNKNOWNCOMMAND".to_owned(),
            Response::ERR_NOMOTD => "ERR_NOMOTD".to_owned(),
            Response::ERR_NOADMININFO => "ERR_NOADMININFO".to_owned(),
            Response::ERR_FILEERROR => "ERR_FILEERROR".to_owned(),
            Response::ERR_NONICKNAMEGIVEN => "ERR_NONICKNAMEGIVEN".to_owned(),
            Response::ERR_ERRONEOUSNICKNAME => "ERR_ERRONEOUSNICKNAME".to_owned(),
            Response::ERR_NICKNAMEINUSE => "ERR_NICKNAMEINUSE".to_owned(),
            Response::ERR_NICKCOLLISION => "ERR_NICKCOLLISION".to_owned(),
            Response::ERR_UNAVAILRESOURCE => "ERR_UNAVAILRESOURCE".to_owned(),
            Response::ERR_USERNOTINCHANNEL => "ERR_USERNOTINCHANNEL".to_owned(),
            Response::ERR_NOTONCHANNEL => "ERR_NOTONCHANNEL".to_owned(),
            Response::ERR_USERONCHANNEL => "ERR_USERONCHANNEL".to_owned(),
            Response::ERR_NOLOGIN => "ERR_NOLOGIN".to_owned(),
            Response::ERR_SUMMONDISABLED => "ERR_SUMMONDISABLED".to_owned(),
            Response::ERR_USERSDISABLED => "ERR_USERSDISABLED".to_owned(),
            Response::ERR_NOTREGISTERED => "ERR_NOTREGISTERED".to_owned(),
            Response::ERR_NEEDMOREPARAMS => "ERR_NEEDMOREPARAMS".to_owned(),
            Response::ERR_ALREADYREGISTRED => "ERR_ALREADYREGISTRED".to_owned(),
            Response::ERR_NOPERMFORHOST => "ERR_NOPERMFORHOST".to_owned(),
            Response::ERR_PASSWDMISMATCH => "ERR_PASSWDMISMATCH".to_owned(),
            Response::ERR_YOUREBANNEDCREEP => "ERR_YOUREBANNEDCREEP".to_owned(),
            Response::ERR_YOUWILLBEBANNED => "ERR_YOUWILLBEBANNED".to_owned(),
            Response::ERR_KEYSET => "ERR_KEYSET".to_owned(),
            Response::ERR_CHANNELISFULL => "ERR_CHANNELISFULL".to_owned(),
            Response::ERR_UNKNOWNMODE => "ERR_UNKNOWNMODE".to_owned(),
            Response::ERR_INVITEONLYCHAN => "ERR_INVITEONLYCHAN".to_owned(),
            Response::ERR_BANNEDFROMCHAN => "ERR_BANNEDFROMCHAN".to_owned(),
            Response::ERR_BADCHANNELKEY => "ERR_BADCHANNELKEY".to_owned(),
            Response::ERR_BADCHANMASK => "ERR_BADCHANMASK".to_owned(),
            Response::ERR_NOCHANMODES => "ERR_NOCHANMODES".to_owned(),
            Response::ERR_BANLISTFULL => "ERR_BANLISTFULL".to_owned(),
            Response::ERR_NOPRIVILEGES => "ERR_NOPRIVILEGES".to_owned(),
            Response::ERR_CHANOPRIVSNEEDED => "ERR_CHANOPRIVSNEEDED".to_owned(),
            Response::ERR_CANTKILLSERVER => "ERR_CANTKILLSERVER".to_owned(),
            Response::ERR_RESTRICTED => "ERR_RESTRICTED".to_owned(),
            Response::ERR_UNIQOPPRIVSNEEDED => "ERR_UNIQOPPRIVSNEEDED".to_owned(),
            Response::ERR_NOOPERHOST => "ERR_NOOPERHOST".to_owned(),
            Response::ERR_UMODEUNKNOWNFLAG => "ERR_UMODEUNKNOWNFLAG".to_owned(),
            Response::ERR_USERSDONTMATCH => "ERR_USERSDONTMATCH".to_owned(),
            Response::ERR_NOPRIVS => "ERR_NOPRIVS".to_owned(),
            Response::ERR_MONLISTFULL => "ERR_MONLISTFULL".to_owned(),
            Response::ERR_METADATALIMIT => "ERR_METADATALIMIT".to_owned(),
            Response::ERR_TARGETINVALID => "ERR_TARGETINVALID".to_owned(),
            Response::ERR_NOMATCHINGKEY => "ERR_NOMATCHINGKEY".to_owned(),
            Response::ERR_KEYINVALID => "ERR_KEYINVALID".to_owned(),
            Response::ERR_KEYNOTSET => "ERR_KEYNOTSET".to_owned(),
            Response::ERR_KEYNOPERMISSION => "ERR_KEYNOPERMISSION".to_owned(),
            Response::ERR_NICKLOCKED => "ERR_NICKLOCKED".to_owned(),
            Response::ERR_SASLFAIL => "ERR_SASLFAIL".to_owned(),
            Response::ERR_SASLTOOLONG => "ERR_SASLTOOLONG".to_owned(),
            Response::ERR_SASLABORT => "ERR_SASLABORT".to_owned(),
            Response::ERR_SASLALREADY => "ERR_SASLALREADY".to_owned(),
        }
    }
}

/// What a message asks for or tells.
#[allow(non_camel_case_types)]
#[derive(Clone, Copy, Debug, PartialEq, Eq, Structural)]
pub enum Command {
    PASS,
    NICK,
    USER,
    OPER,
    UserMODE,
    SERVICE,
    QUIT,
    SQUIT,
    JOIN,
    PART,
    ChannelMODE,
    TOPIC,
    NAMES,
    LIST,
    INVITE,
    KICK,
    PRIVMSG,
    NOTICE,
    MOTD,
    LUSERS,
    VERSION,
    STATS,
    LINKS,
    TIME,
    CONNECT,
    TRACE,
    ADMIN,
    INFO,
    SERVLIST,
    SQUERY,
    WHO,
    WHOIS,
    WHOWAS,
    KILL,
    PING,
    PONG,
    ERROR,
    AWAY,
    REHASH,
    DIE,
    RESTART,
    SUMMON,
    USERS,
    WALLOPS,
    USERHOST,
    ISON,
    SAJOIN,
    SAMODE,
    SANICK,
    SAPART,
    SAQUIT,
    NICKSERV,
    CHANSERV,
    OPERSERV,
    BOTSERV,
    HOSTSERV,
    MEMOSERV,
    CAP,
    AUTHENTICATE,
    ACCOUNT,
    METADATA,
    MONITOR,
    BATCH,
    CHGHOST,
    Raw,
    /// A numeric reply.
    Response(Response),
}

/// The name under which a command is reported.
pub open spec fn command_name(command: Command) -> Seq<char> {
    match command {
        Command::PASS => "PASS"@,
        Command::NICK => "NICK"@,
        Command::USER => "USER"@,
        Command::OPER => "OPER"@,
        Command::UserMODE => "UserMODE"@,
        Command::SERVICE => "SERVICE"@,
        Command::QUIT => "QUIT"@,
        Command::SQUIT => "SQUIT"@,
        Command::JOIN => "JOIN"@,
        Command::PART => "PART"@,
        Command::ChannelMODE => "ChannelMODE"@,
        Command::TOPIC => "TOPIC"@,
        Command::NAMES => "NAMES"@,
        Command::LIST => "LIST"@,
        Command::INVITE => "INVITE"@,
        Command::KICK => "KICK"@,
        Command::PRIVMSG => "PRIVMSG"@,
        Command::NOTICE => "NOTICE"@,
        Command::MOTD => "MOTD"@,
        Command::LUSERS => "LUSERS"@,
        Command::VERSION => "VERSION"@,
        Command::STATS => "STATS"@,
        Command::LINKS => "LINKS"@,
        Command::TIME => "TIME"@,
        Command::CONNECT => "CONNECT"@,
        Command::TRACE => "TRACE"@,
        Command::ADMIN => "ADMIN"@,
        Command::INFO => "INFO"@,
        Command::SERVLIST => "SERVLIST"@,
        Command::SQUERY => "SQUERY"@,
        Command::WHO => "WHO"@,
        Command::WHOIS => "WHOIS"@,
        Command::WHOWAS => "WHOWAS"@,
        Command::KILL => "KILL"@,
        Command::PING => "PING"@,
        Command::PONG => "PONG"@,
        Command::ERROR => "ERROR"@,
        Command::AWAY => "AWAY"@,
        Command::REHASH => "REHASH"@,
        Command::DIE => "DIE"@,
        Command::RESTART => "RESTART"@,
        Command::SUMMON => "SUMMON"@,
        Command::USERS => "USERS"@,
        Command::WALLOPS => "WALLOPS"@,
        Command::USERHOST => "USERHOST"@,
        Command::ISON => "ISON"@,
        Command::SAJOIN => "SAJOIN"@,
        Command::SAMODE => "SAMODE"@,
        Command::SANICK => "SANICK"@,
        Command::SAPART => "SAPART"@,
        Command::SAQUIT => "SAQUIT"@,
        Command::NICKSERV => "NICKSERV"@,
        Command::CHANSERV => "CHANSERV"@,
        Command::OPERSERV => "OPERSERV"@,
        Command::BOTSERV => "BOTSERV"@,
        Command::HOSTSERV => "HOSTSERV"@,
        Command::MEMOSERV => "MEMOSERV"@,
        Command::CAP => "CAP"@,
        Command::AUTHENTICATE => "AUTHENTICATE"@,
        Command::ACCOUNT => "ACCOUNT"@,
        Command::METADATA => "METADATA"@,
        Command::MONITOR => "MONITOR"@,
        Command::BATCH => "BATCH"@,
        Command::CHGHOST => "CHGHOST"@,
        Command::Raw => "Raw"@,
        Command::Response(response) => response_name(response),
    }
}

impl Command {
    /// The name under which this command is reported.
    pub fn name(&self) -> (name: String)
        ensures
            name@ == command_name(*self),
    {
        match self {
            Command::PASS => "PASS".to_owned(),
            Command::NICK => "NICK".to_owned(),
            Command::USER => "USER".to_owned(),
            Command::OPER => "OPER".to_owned(),
            Command::UserMODE => "UserMODE".to_owned(),
            Command::SERVICE => "SERVICE".to_owned(),
            Command::QUIT => "QUIT".to_owned(),
            Command::SQUIT => "SQUIT".to_owned(),
            Command::JOIN => "JOIN".to_owned(),
            Command::PART => "PART".to_owned(),
            Command::ChannelMODE => "ChannelMODE".to_owned(),
            Command::TOPIC => "TOPIC".to_owned(),
            Command::NAMES => "NAMES".to_owned(),
            Command::LIST => "LIST".to_owned(),
            Command::INVITE => "INVITE".to_owned(),
            Command::KICK => "KICK".to_owned(),
            Command::PRIVMSG => "PRIVMSG".to_owned(),
            Command::NOTICE => "NOTICE".to_owned(),
            Command::MOTD => "MOTD".to_owned(),
            Command::LUSERS => "LUSERS".to_owned(),
            Command::VERSION => "VERSION".to_owned(),
            Command::STATS => "STATS".to_owned(),
            Command::LINKS => "LINKS".to_owned(),
            Command::TIME => "TIME".to_owned(),
            Command::CONNECT => "CONNECT".to_owned(),
            Command::TRACE => "TRACE".to_owned(),
            Command::ADMIN => "ADMIN".to_owned(),
            Command::INFO => "INFO".to_owned(),
            Command::SERVLIST => "SERVLIST".to_owned(),
            Command::SQUERY => "SQUERY".to_owned(),
            Command::WHO => "WHO".to_owned(),
            Command::WHOIS => "WHOIS".to_owned(),
            Command::WHOWAS => "WHOWAS".to_owned(),
            Command::KILL => "KILL".to_owned(),
            Command::PING => "PING".to_owned(),
            Command::PONG => "PONG".to_owned(),
            Command::ERROR => "ERROR".to_owned(),
            Command::AWAY => "AWAY".to_owned(),
            Command::REHASH => "REHASH".to_owned(),
            Command::DIE => "DIE".to_owned(),
            Command::RESTART => "RESTART".to_owned(),
            Command::SUMMON => "SUMMON".to_owned(),
            Command::USERS => "USERS".to_owned(),
            Command::WALLOPS => "WALLOPS".to_owned(),
            Command::USERHOST => "USERHOST".to_owned(),
            Command::ISON => "ISON".to_owned(),
            Command::SAJOIN => "SAJOIN".to_owned(),
            Command::SAMODE => "SAMODE".to_owned(),
            Command::SANICK => "SANICK".to_owned(),
            Command::SAPART => "SAPART".to_owned(),
            Command::SAQUIT => "SAQUIT".to_owned(),
            Command::NICKSERV => "NICKSERV".to_owned(),
            Command::CHANSERV => "CHANSERV".to_owned(),
            Command::OPERSERV => "OPERSERV".to_owned(),
            Command::BOTSERV => "BOTSERV".to_owned(),
            Command::HOSTSERV => "HOSTSERV".to_owned(),
            Command::MEMOSERV => "MEMOSERV".to_owned(),
            Command::CAP => "CAP".to_owned(),
            Command::AUTHENTICATE => "AUTHENTICATE".to_owned(),
            Command::ACCOUNT => "ACCOUNT".to_owned(),
            Command::METADATA => "METADATA".to_owned(),
            Command::MONITOR => "MONITOR".to_owned(),
            Command::BATCH => "BATCH".to_owned(),
            Command::CHGHOST => "CHGHOST".to_owned(),
            Command::Raw => "Raw".to_owned(),
            Command::Response(response) => response.name(),
        }
    }
}

/// One message of the server, as the parser hands it over.
#[derive(Clone, Debug, PartialEq, Eq)]
pub struct Message {
    /// Who sent it: `nick!user@host`, a bare nickname or a server name.
    pub prefix: Option<String>,
    /// What it is.
    pub command: Command,
    /// Its arguments, in their order.
    pub args: Vec<String>,
    /// Its trailing text.
    pub suffix: Option<String>,
    /// The changes that a channel mode message asks for, in their order;
    /// empty in every other message.
    pub modes: Vec<Mode>,
}

/// What a [`Message`] stands for.
pub struct MessageView {
    pub prefix: Option<Seq<char>>,
    pub command: Command,
    pub args: Seq<Seq<char>>,
    pub suffix: Option<Seq<char>>,
    pub modes: Seq<ModeView>,
}

impl View for Message {
    type V = MessageView;

    open spec fn view(&self) -> MessageView {
        MessageView {
            prefix: text_of(self.prefix),
            command: self.command,
            args: self.args.deep_view(),
            suffix: text_of(self.suffix),
            modes: mode_views(self.modes@),
        }
    }
}

/// The parameters of a message: its arguments, and behind them its trailing
/// text where it has one.
pub open spec fn params_of(args: Seq<Seq<char>>, suffix: Option<Seq<char>>) -> Seq<Seq<char>> {
    match suffix {
        Some(text) => args.push(text),
        None => args,
    }
}

impl MessageView {
    /// The parameters: the arguments, and behind them the trailing text
    /// where there is one.
    pub open spec fn params(self) -> Seq<Seq<char>> {
        params_of(self.args, self.suffix)
    }
}

} // verus!
